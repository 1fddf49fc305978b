//! The directory listing: the payload of the object with identifier 0, which describes
//! every object of the server in one record each.
//!
//! A record is its own length in two bytes and then a body:
//!
//! ```text
//! id          6 bytes, little-endian
//! name_len    1 byte
//! name        name_len bytes of UTF-8
//! flags       1 byte
//! type        2 bytes, or 16 with TYPE_UUID128
//! current     4 bytes  with HAS_CURRENT_SIZE
//! allocated   4 bytes  with HAS_ALLOCATED_SIZE
//! created     7 bytes  with HAS_FIRST_CREATED
//! modified    7 bytes  with HAS_LAST_MODIFIED
//! properties  4 bytes  with HAS_PROPERTIES
//! ```

use vstd::prelude::*;
use vstd::slice::slice_subrange;

use crate::error::{result_view, Error};
use crate::flags::{DirFlag, Property};
use crate::le::{read_u16, read_u32, read_u48, u16_from_le, u32_from_le, u48_from_le};
use crate::types::{
    decode_name, spec_decode_name, spec_uuid_from_u32, uuid_from_u16, DateTime, Uuid,
};

verus! {

/// The identifier of the object whose payload is the directory listing.
pub const DIRECTORY_ID: u64 = 0;

/// The least number of bytes of a record, its length included.
pub const MIN_RECORD_LEN: usize = 13;

/// The least number of bytes of the body of a record.
pub const MIN_BODY_LEN: usize = 11;

/// What is known of one object.
#[derive(Debug, Clone, PartialEq, Eq, PartialOrd, Ord, Hash)]
pub struct Metadata {
    /// The identifier, where the server gives one.
    pub id: Option<u64>,
    /// The name.
    pub name: String,
    /// The type.
    pub type_: Uuid,
    /// How many bytes the object holds.
    pub current_size: Option<usize>,
    /// How many bytes the object can hold.
    pub allocated_size: Option<usize>,
    /// When the object was created.
    pub first_created: Option<DateTime>,
    /// When the object was last changed.
    pub last_modified: Option<DateTime>,
    /// What may be done with the object.
    pub properties: Property,
}

/// A `Metadata` with its name as a sequence of characters and its type as sixteen bytes.
pub struct MetadataView {
    pub id: Option<u64>,
    pub name: Seq<char>,
    pub type_: Seq<u8>,
    pub current_size: Option<usize>,
    pub allocated_size: Option<usize>,
    pub first_created: Option<DateTime>,
    pub last_modified: Option<DateTime>,
    pub properties: Property,
}

impl View for Metadata {
    type V = MetadataView;

    open spec fn view(&self) -> MetadataView {
        MetadataView {
            id: self.id,
            name: self.name@,
            type_: self.type_@,
            current_size: self.current_size,
            allocated_size: self.allocated_size,
            first_created: self.first_created,
            last_modified: self.last_modified,
            properties: self.properties,
        }
    }
}

/// Where the fields behind the flags of a record body start, counted in bytes from the
/// start of the body.  An absent field starts where the next one does.
#[derive(Debug, Clone, Copy, PartialEq, Eq, Structural)]
pub struct Layout {
    /// Where the type starts.
    pub type_at: usize,
    /// Where the current size starts.
    pub current_at: usize,
    /// Where the allocated size starts.
    pub allocated_at: usize,
    /// Where the creation time starts.
    pub created_at: usize,
    /// Where the modification time starts.
    pub modified_at: usize,
    /// Where the properties start.
    pub properties_at: usize,
    /// Where the last field ends.
    pub end: usize,
}

impl Layout {
    /// Where a field of `size` bytes that starts at `at` ends, or `NotEnoughData` with what
    /// is left of `raw` and what the field needs.  An absent field ends where it starts.
    pub open spec fn spec_field_end(raw: Seq<u8>, at: usize, present: bool, size: usize) -> Result<
        usize,
        Error,
    > {
        if !present {
            Ok(at)
        } else if raw.len() - at < size {
            Err(Error::NotEnoughData { actual: (raw.len() - at) as usize, needed: size })
        } else {
            Ok((at + size) as usize)
        }
    }

    /// The layout of the fields that the flags announce, where the first starts at `at`,
    /// or `NotEnoughData` for the first of them that does not fit.
    pub open spec fn spec_of(raw: Seq<u8>, at: usize, flags: DirFlag) -> Result<Layout, Error> {
        match Self::spec_field_end(
            raw,
            at,
            true,
            if flags.spec_contains(DirFlag::TYPE_UUID128) {
                16
            } else {
                2
            },
        ) {
            Err(e) => Err(e),
            Ok(current_at) => match Self::spec_field_end(
                raw,
                current_at,
                flags.spec_contains(DirFlag::HAS_CURRENT_SIZE),
                4,
            ) {
                Err(e) => Err(e),
                Ok(allocated_at) => match Self::spec_field_end(
                    raw,
                    allocated_at,
                    flags.spec_contains(DirFlag::HAS_ALLOCATED_SIZE),
                    4,
                ) {
                    Err(e) => Err(e),
                    Ok(created_at) => match Self::spec_field_end(
                        raw,
                        created_at,
                        flags.spec_contains(DirFlag::HAS_FIRST_CREATED),
                        7,
                    ) {
                        Err(e) => Err(e),
                        Ok(modified_at) => match Self::spec_field_end(
                            raw,
                            modified_at,
                            flags.spec_contains(DirFlag::HAS_LAST_MODIFIED),
                            7,
                        ) {
                            Err(e) => Err(e),
                            Ok(properties_at) => match Self::spec_field_end(
                                raw,
                                properties_at,
                                flags.spec_contains(DirFlag::HAS_PROPERTIES),
                                4,
                            ) {
                                Err(e) => Err(e),
                                Ok(end) => Ok(
                                    Layout {
                                        type_at: at,
                                        current_at,
                                        allocated_at,
                                        created_at,
                                        modified_at,
                                        properties_at,
                                        end,
                                    },
                                ),
                            },
                        },
                    },
                },
            },
        }
    }

    /// The fields follow each other in their order and end within `len` bytes.
    pub open spec fn fits(self, len: nat) -> bool {
        self.type_at <= self.current_at <= self.allocated_at <= self.created_at
            <= self.modified_at <= self.properties_at <= self.end <= len
    }

    /// Each field that the flags announce has its size, and each other field none.
    pub open spec fn agrees(self, flags: DirFlag) -> bool {
        &&& self.current_at - self.type_at == (if flags.spec_contains(DirFlag::TYPE_UUID128) {
            16int
        } else {
            2int
        })
        &&& self.allocated_at - self.current_at == (if flags.spec_contains(
            DirFlag::HAS_CURRENT_SIZE,
        ) {
            4int
        } else {
            0int
        })
        &&& self.created_at - self.allocated_at == (if flags.spec_contains(
            DirFlag::HAS_ALLOCATED_SIZE,
        ) {
            4int
        } else {
            0int
        })
        &&& self.modified_at - self.created_at == (if flags.spec_contains(
            DirFlag::HAS_FIRST_CREATED,
        ) {
            7int
        } else {
            0int
        })
        &&& self.properties_at - self.modified_at == (if flags.spec_contains(
            DirFlag::HAS_LAST_MODIFIED,
        ) {
            7int
        } else {
            0int
        })
        &&& self.end - self.properties_at == (if flags.spec_contains(DirFlag::HAS_PROPERTIES) {
            4int
        } else {
            0int
        })
    }

    /// Where a field of `size` bytes that starts at `at` ends.
    fn field_end(raw: &[u8], at: usize, present: bool, size: usize) -> (r: Result<usize, Error>)
        requires
            at <= raw.len(),
            size <= 16,
        ensures
            r == Self::spec_field_end(raw@, at, present, size),
            r matches Ok(end) ==> at <= end <= raw.len() && end == at + (if present {
                size
            } else {
                0
            }),
    {
        if !present {
            Ok(at)
        } else if raw.len() - at < size {
            Err(Error::NotEnoughData { actual: raw.len() - at, needed: size })
        } else {
            Ok(at + size)
        }
    }

    /// Lays out the fields that the flags announce, where the first starts at `at`.
    pub fn of(raw: &[u8], at: usize, flags: &DirFlag) -> (r: Result<Layout, Error>)
        requires
            at <= raw.len(),
        ensures
            r == Self::spec_of(raw@, at, *flags),
            r matches Ok(l) ==> l.fits(raw@.len()) && l.agrees(*flags) && l.type_at == at,
    {
        let type_len: usize = if flags.contains(DirFlag::TYPE_UUID128) {
            16
        } else {
            2
        };
        let current_at: usize = Self::field_end(raw, at, true, type_len)?;
        let allocated_at: usize = Self::field_end(
            raw,
            current_at,
            flags.contains(DirFlag::HAS_CURRENT_SIZE),
            4,
        )?;
        let created_at: usize = Self::field_end(
            raw,
            allocated_at,
            flags.contains(DirFlag::HAS_ALLOCATED_SIZE),
            4,
        )?;
        let modified_at: usize = Self::field_end(
            raw,
            created_at,
            flags.contains(DirFlag::HAS_FIRST_CREATED),
            7,
        )?;
        let properties_at: usize = Self::field_end(
            raw,
            modified_at,
            flags.contains(DirFlag::HAS_LAST_MODIFIED),
            7,
        )?;
        let end: usize = Self::field_end(
            raw,
            properties_at,
            flags.contains(DirFlag::HAS_PROPERTIES),
            4,
        )?;
        Ok(
            Layout {
                type_at: at,
                current_at,
                allocated_at,
                created_at,
                modified_at,
                properties_at,
                end,
            },
        )
    }
}

impl Metadata {
    /// What the fields laid out by `l` hold, or `BadProperties`.
    pub open spec fn spec_read_fields(
        raw: Seq<u8>,
        l: Layout,
        flags: DirFlag,
        id: u64,
        name: Seq<char>,
    ) -> Result<MetadataView, Error> {
        match (if flags.spec_contains(DirFlag::HAS_PROPERTIES) {
            Property::spec_read(raw.subrange(l.properties_at as int, l.end as int))
        } else {
            Ok(Property { bits: 0 })
        }) {
            Err(e) => Err(e),
            Ok(properties) => Ok(
                MetadataView {
                    id: Some(id),
                    name,
                    type_: if flags.spec_contains(DirFlag::TYPE_UUID128) {
                        raw.subrange(l.type_at as int, l.current_at as int)
                    } else {
                        spec_uuid_from_u32(
                            u16_from_le(raw.subrange(l.type_at as int, l.current_at as int)) as u32,
                        )
                    },
                    current_size: if flags.spec_contains(DirFlag::HAS_CURRENT_SIZE) {
                        Some(
                            u32_from_le(
                                raw.subrange(l.current_at as int, l.allocated_at as int),
                            ) as usize,
                        )
                    } else {
                        None
                    },
                    allocated_size: if flags.spec_contains(DirFlag::HAS_ALLOCATED_SIZE) {
                        Some(
                            u32_from_le(
                                raw.subrange(l.allocated_at as int, l.created_at as int),
                            ) as usize,
                        )
                    } else {
                        None
                    },
                    first_created: if flags.spec_contains(DirFlag::HAS_FIRST_CREATED) {
                        Some(
                            DateTime::spec_read(
                                raw.subrange(l.created_at as int, l.modified_at as int),
                            ),
                        )
                    } else {
                        None
                    },
                    last_modified: if flags.spec_contains(DirFlag::HAS_LAST_MODIFIED) {
                        Some(
                            DateTime::spec_read(
                                raw.subrange(l.modified_at as int, l.properties_at as int),
                            ),
                        )
                    } else {
                        None
                    },
                    properties,
                },
            ),
        }
    }

    /// What the fields behind the flags decode to, where they start at `at`:
    /// `NotEnoughData` for the first that does not fit, else what they hold.
    pub open spec fn spec_decode_fields(
        raw: Seq<u8>,
        at: usize,
        flags: DirFlag,
        id: u64,
        name: Seq<char>,
    ) -> Result<MetadataView, Error> {
        match Layout::spec_of(raw, at, flags) {
            Err(e) => Err(e),
            Ok(l) => Self::spec_read_fields(raw, l, flags, id, name),
        }
    }

    /// What the body of a record decodes to.
    ///
    /// A body of fewer than eleven bytes is `NotEnoughData`, and so is one whose name,
    /// flags and short type do not fit behind the length of the name.  Then come
    /// `BadUtf8` for the name, `BadDirFlags` for the flags, `NotEnoughData` for the first
    /// field that does not fit, and `BadProperties`.  What lies behind the last field
    /// is not read.
    pub open spec fn spec_decode(raw: Seq<u8>) -> Result<MetadataView, Error> {
        if raw.len() < 11 {
            Err(Error::NotEnoughData { actual: raw.len() as usize, needed: 11 })
        } else {
            let n = raw[6] as int;
            if raw.len() - 7 < n + 3 {
                Err(
                    Error::NotEnoughData {
                        actual: (raw.len() - 7) as usize,
                        needed: (n + 3) as usize,
                    },
                )
            } else {
                match spec_decode_name(raw.subrange(7, 7 + n)) {
                    Err(e) => Err(e),
                    Ok(name) => match DirFlag::spec_decode(raw[7 + n]) {
                        Err(e) => Err(e),
                        Ok(flags) => Self::spec_decode_fields(
                            raw,
                            (8 + n) as usize,
                            flags,
                            u48_from_le(raw.subrange(0, 6)) as u64,
                            name,
                        ),
                    },
                }
            }
        }
    }

    /// Reads the fields that `l` lays out.
    fn read_fields(raw: &[u8], l: &Layout, flags: &DirFlag, id: u64, name: String) -> (r: Result<
        Self,
        Error,
    >)
        requires
            l.fits(raw@.len()),
            l.agrees(*flags),
        ensures
            result_view(r) == Self::spec_read_fields(raw@, *l, *flags, id, name@),
    {
        let properties: Property = if flags.contains(DirFlag::HAS_PROPERTIES) {
            Property::read(raw, l.properties_at)?
        } else {
            Property::empty()
        };
        let type_: Uuid = if flags.contains(DirFlag::TYPE_UUID128) {
            match Uuid::from_slice(slice_subrange(raw, l.type_at, l.current_at)) {
                Ok(u) => u,
                Err(e) => {
                    return Err(e);
                },
            }
        } else {
            uuid_from_u16(read_u16(raw, l.type_at))
        };
        let current_size: Option<usize> = if flags.contains(DirFlag::HAS_CURRENT_SIZE) {
            Some(read_u32(raw, l.current_at) as usize)
        } else {
            None
        };
        let allocated_size: Option<usize> = if flags.contains(DirFlag::HAS_ALLOCATED_SIZE) {
            Some(read_u32(raw, l.allocated_at) as usize)
        } else {
            None
        };
        let first_created: Option<DateTime> = if flags.contains(DirFlag::HAS_FIRST_CREATED) {
            Some(DateTime::read(raw, l.created_at))
        } else {
            None
        };
        let last_modified: Option<DateTime> = if flags.contains(DirFlag::HAS_LAST_MODIFIED) {
            Some(DateTime::read(raw, l.modified_at))
        } else {
            None
        };
        Ok(
            Metadata {
                id: Some(id),
                name,
                type_,
                current_size,
                allocated_size,
                first_created,
                last_modified,
                properties,
            },
        )
    }

    /// Decodes the fields behind the flags, which start at `at`.
    fn decode_fields(raw: &[u8], at: usize, flags: DirFlag, id: u64, name: String) -> (r: Result<
        Self,
        Error,
    >)
        requires
            at <= raw.len(),
        ensures
            result_view(r) == Self::spec_decode_fields(raw@, at, flags, id, name@),
    {
        let l: Layout = Layout::of(raw, at, &flags)?;
        Self::read_fields(raw, &l, &flags, id, name)
    }

    /// Decodes the body of a record.
    pub fn try_from(raw: &[u8]) -> (r: Result<Self, Error>)
        ensures
            result_view(r) == Self::spec_decode(raw@),
    {
        if raw.len() < 11 {
            return Err(Error::NotEnoughData { actual: raw.len(), needed: 11 });
        }
        let id: u64 = read_u48(raw, 0);
        let n: usize = raw[6] as usize;
        if raw.len() - 7 < n + 3 {
            return Err(Error::NotEnoughData { actual: raw.len() - 7, needed: n + 3 });
        }
        let name: String = decode_name(slice_subrange(raw, 7, 7 + n))?;
        let flags: DirFlag = DirFlag::try_from(raw[7 + n])?;
        Self::decode_fields(raw, 8 + n, flags, id, name)
    }
}

/// The records of a directory listing, one after another.
///
/// Each call of `next` decodes one record.  The walk ends behind the last record and
/// behind the first error, and once it has ended it stays ended.
pub struct DirEntries<'i> {
    /// The bytes that have not been read yet.
    pub raw: &'i [u8],
    /// Whether the walk has ended.
    pub done: bool,
}

/// What a directory listing decodes to: its records in their order, up to and with the
/// first that fails.
pub open spec fn spec_entries(raw: Seq<u8>) -> Seq<Result<MetadataView, Error>>
    decreases raw.len(),
{
    match DirEntries::spec_split_dir_entry(raw) {
        Err(e) => seq![Err(e)],
        Ok(None) => Seq::empty(),
        Ok(Some((body, rest))) => match Metadata::spec_decode(body) {
            Err(e) => seq![Err(e)],
            Ok(m) => if rest.len() < raw.len() {
                seq![Ok(m)] + spec_entries(rest)
            } else {
                seq![Ok(m)]
            },
        },
    }
}

/// The items of a walk seen through their views.
pub open spec fn items_view(items: Seq<Result<Metadata, Error>>) -> Seq<
    Result<MetadataView, Error>,
> {
    items.map_values(|r: Result<Metadata, Error>| result_view(r))
}

impl<'i> DirEntries<'i> {
    /// How a listing splits into the body of its first record and what follows it.
    ///
    /// An empty listing has no record.  A listing of fewer than thirteen bytes is
    /// `NotEnoughData`, and so is one shorter than the length that its first record
    /// gives.  A record length below two, which cannot hold the length itself, is
    /// `NotEnoughData` too, with the length as what there is.
    pub open spec fn spec_split_dir_entry(raw: Seq<u8>) -> Result<
        Option<(Seq<u8>, Seq<u8>)>,
        Error,
    > {
        let record_len = u16_from_le(raw.subrange(0, 2));
        if raw.len() == 0 {
            Ok(None)
        } else if raw.len() < 13 {
            Err(Error::NotEnoughData { actual: raw.len() as usize, needed: 13 })
        } else if raw.len() < record_len {
            Err(Error::NotEnoughData { actual: raw.len() as usize, needed: record_len as usize })
        } else if record_len < 2 {
            Err(Error::NotEnoughData { actual: record_len as usize, needed: 2 })
        } else {
            Ok(Some((raw.subrange(2, record_len), raw.subrange(record_len, raw.len() as int))))
        }
    }

    /// The items that the walk has yet to give.
    pub open spec fn spec_items(&self) -> Seq<Result<MetadataView, Error>> {
        if self.done {
            Seq::empty()
        } else {
            spec_entries(self.raw@)
        }
    }

    /// The bytes that are left when one more item has been asked for: those behind the
    /// first record, or all where there is no record to take.
    pub open spec fn spec_rest(&self) -> Seq<u8> {
        if self.done {
            self.raw@
        } else {
            match Self::spec_split_dir_entry(self.raw@) {
                Ok(Some((_, rest))) => rest,
                _ => self.raw@,
            }
        }
    }

    /// Whether the walk has ended when one more item has been asked for: it goes on
    /// behind a record that decodes and is not the last.
    pub open spec fn spec_ends(&self) -> bool {
        self.done || (match Self::spec_split_dir_entry(self.raw@) {
            Ok(Some((body, rest))) => Metadata::spec_decode(body) is Err || rest.len() == 0,
            _ => true,
        })
    }

    /// Splits a listing into the body of its first record and what follows it.
    pub fn split_dir_entry(raw: &[u8]) -> (r: Result<Option<(&[u8], &[u8])>, Error>)
        ensures
            match Self::spec_split_dir_entry(raw@) {
                Ok(Some((body, rest))) => r matches Ok(Some((b, t))) && b@ == body && t@ == rest,
                Ok(None) => r matches Ok(None),
                Err(e) => r matches Err(f) && f == e,
            },
    {
        if raw.len() == 0 {
            return Ok(None);
        }
        if raw.len() < 13 {
            return Err(Error::NotEnoughData { actual: raw.len(), needed: 13 });
        }
        let record_len: usize = read_u16(raw, 0) as usize;
        if raw.len() < record_len {
            return Err(Error::NotEnoughData { actual: raw.len(), needed: record_len });
        }
        if record_len < 2 {
            return Err(Error::NotEnoughData { actual: record_len, needed: 2 });
        }
        let body: &[u8] = slice_subrange(raw, 2, record_len);
        let rest: &[u8] = slice_subrange(raw, record_len, raw.len());
        Ok(Some((body, rest)))
    }

    /// A walk over the records of `raw`.
    pub fn from(raw: &'i [u8]) -> (r: Self)
        ensures
            r.raw@ == raw@,
            !r.done,
            r.spec_items() == spec_entries(raw@),
    {
        DirEntries { raw, done: false }
    }

    /// The bytes that the walk has not read yet.
    pub fn into_inner(self) -> (r: &'i [u8])
        ensures
            r@ == self.raw@,
    {
        self.raw
    }

    /// Decodes the next record: `None` where the walk has ended, else the record or
    /// the error that ends the walk.
    pub fn next(&mut self) -> (r: Option<Result<Metadata, Error>>)
        ensures
            old(self).spec_items().len() == 0 ==> r is None && final(self).spec_items().len() == 0,
            old(self).spec_items().len() > 0 ==> (r matches Some(item) && result_view(item)
                == old(self).spec_items()[0]),
            old(self).spec_items().len() > 0 ==> final(self).spec_items() == old(
                self,
            ).spec_items().drop_first(),
            r matches Some(Err(_)) ==> final(self).spec_items().len() == 0,
            final(self).raw@ == old(self).spec_rest(),
            final(self).done == old(self).spec_ends(),
    {
        if self.done {
            return None;
        }
        let raw: &[u8] = self.raw;
        match Self::split_dir_entry(raw) {
            Ok(Some((body, rest))) => {
                let item: Result<Metadata, Error> = Metadata::try_from(body);
                let failed: bool = match &item {
                    Ok(_) => false,
                    Err(_) => true,
                };
                self.raw = rest;
                if failed || rest.len() == 0 {
                    self.done = true;
                }
                proof {
                    let all = spec_entries(raw@);
                    if failed {
                        assert(all.drop_first() =~= Seq::empty());
                    } else {
                        assert(rest@.len() < raw@.len());
                        assert(all.drop_first() =~= spec_entries(rest@));
                        if rest@.len() == 0 {
                            assert(spec_entries(rest@) =~= Seq::empty());
                        }
                    }
                }
                Some(item)
            },
            Ok(None) => {
                self.done = true;
                None
            },
            Err(e) => {
                self.done = true;
                proof {
                    assert(spec_entries(raw@).drop_first() =~= Seq::empty());
                }
                Some(Err(e))
            },
        }
    }

    /// Decodes a whole listing: every record up to and with the first that fails.
    pub fn collect(raw: &[u8]) -> (r: Vec<Result<Metadata, Error>>)
        ensures
            items_view(r@) == spec_entries(raw@),
    {
        let mut entries: DirEntries<'_> = DirEntries::from(raw);
        let mut out: Vec<Result<Metadata, Error>> = Vec::new();
        assert(items_view(out@) + entries.spec_items() =~= spec_entries(raw@));
        loop
            invariant
                items_view(out@) + entries.spec_items() == spec_entries(raw@),
            ensures
                items_view(out@) == spec_entries(raw@),
            decreases entries.spec_items().len(),
        {
            let ghost before = entries.spec_items();
            let ghost done = out@;
            match entries.next() {
                None => {
                    assert(items_view(out@) =~= items_view(out@) + before);
                    break ;
                },
                Some(item) => {
                    out.push(item);
                    assert(items_view(out@) =~= items_view(done).push(before[0]));
                    assert(items_view(out@) + entries.spec_items() =~= items_view(done) + before);
                },
            }
        }
        out
    }
}

/// The record at the start of a listing, its body and what follows the record make up
/// the listing: a split loses no byte and reads none twice.
pub proof fn lemma_split_covers(raw: Seq<u8>)
    ensures
        DirEntries::spec_split_dir_entry(raw) matches Ok(Some((body, rest))) ==> (raw
            == raw.subrange(0, 2) + body + rest && body.len() + 2 == u16_from_le(
            raw.subrange(0, 2),
        ) && rest.len() < raw.len()),
{
    match DirEntries::spec_split_dir_entry(raw) {
        Ok(Some((body, rest))) => {
            assert(raw =~= raw.subrange(0, 2) + body + rest);
        },
        _ => {},
    }
}

/// Whenever a record body is refused for want of data, the error names fewer bytes
/// than it needs, and no more than there are.
pub proof fn lemma_not_enough_data(raw: Seq<u8>)
    requires
        raw.len() <= usize::MAX,
    ensures
        Metadata::spec_decode(raw) matches Err(Error::NotEnoughData { actual, needed }) ==> (
        actual < needed && actual <= raw.len()),
{
}

/// A layout that exists lies within the bytes it was made for and gives each field that
/// the flags announce its size.
pub proof fn lemma_layout_fits(raw: Seq<u8>, at: usize, flags: DirFlag)
    requires
        at <= raw.len() <= usize::MAX,
    ensures
        Layout::spec_of(raw, at, flags) matches Ok(l) ==> (l.fits(raw.len()) && l.agrees(flags)
            && l.type_at == at),
{
}

/// A layout does not change when bytes are appended behind it.
pub proof fn lemma_layout_of_longer(raw: Seq<u8>, extra: Seq<u8>, at: usize, flags: DirFlag)
    requires
        at <= raw.len(),
        raw.len() + extra.len() <= usize::MAX,
    ensures
        Layout::spec_of(raw, at, flags) matches Ok(l) ==> Layout::spec_of(raw + extra, at, flags)
            == Ok::<Layout, Error>(l),
{
    lemma_layout_fits(raw, at, flags);
}

/// A record body decodes to the same whatever follows it: no decoder reads behind the
/// last field that it has found.
pub proof fn lemma_trailing_bytes_ignored(raw: Seq<u8>, extra: Seq<u8>)
    requires
        raw.len() + extra.len() <= usize::MAX,
    ensures
        Metadata::spec_decode(raw) matches Ok(m) ==> Metadata::spec_decode(raw + extra) == Ok::<
            MetadataView,
            Error,
        >(m),
{
    let long = raw + extra;
    if Metadata::spec_decode(raw) is Ok {
        let n = raw[6] as int;
        let at = (8 + n) as usize;
        assert(long.subrange(7, 7 + n) =~= raw.subrange(7, 7 + n));
        assert(long.subrange(0, 6) =~= raw.subrange(0, 6));
        assert(long[6] == raw[6]);
        assert(long[7 + n] == raw[7 + n]);
        let flags = DirFlag::spec_decode(raw[7 + n])->Ok_0;
        lemma_layout_fits(raw, at, flags);
        lemma_layout_of_longer(raw, extra, at, flags);
        let l = Layout::spec_of(raw, at, flags)->Ok_0;
        assert(long.subrange(l.type_at as int, l.current_at as int) =~= raw.subrange(
            l.type_at as int,
            l.current_at as int,
        ));
        assert(long.subrange(l.current_at as int, l.allocated_at as int) =~= raw.subrange(
            l.current_at as int,
            l.allocated_at as int,
        ));
        assert(long.subrange(l.allocated_at as int, l.created_at as int) =~= raw.subrange(
            l.allocated_at as int,
            l.created_at as int,
        ));
        assert(long.subrange(l.created_at as int, l.modified_at as int) =~= raw.subrange(
            l.created_at as int,
            l.modified_at as int,
        ));
        assert(long.subrange(l.modified_at as int, l.properties_at as int) =~= raw.subrange(
            l.modified_at as int,
            l.properties_at as int,
        ));
        assert(long.subrange(l.properties_at as int, l.end as int) =~= raw.subrange(
            l.properties_at as int,
            l.end as int,
        ));
    }
}

} // verus!
