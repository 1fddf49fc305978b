//! What a client knows of its server after it was set up, and what it decides from that:
//! which requests may go out, what a response means, how much of an object a transfer
//! covers, and how the values read of an object make up its metadata.
//!
//! Nothing here reads or writes.  A request that passes is handed back as the bytes to
//! write; one that does not is refused before anything goes to the server.

use vstd::prelude::*;

use crate::codes::ListRc;
use crate::control::{ActionReq, ActionRes, ActionResView, ListReq, ListRes};
use crate::directory::{Metadata, MetadataView};
use crate::error::{result_view, Error};
use crate::flags::{ActionFeature, ListFeature, Property};
use crate::ids::Characteristic;
use crate::l2cap::{AddressType, L2capSockAddr, L2capSockAddrView, MacAddress, Security};
use crate::types::{
    decode_name, spec_decode_name, spec_uuid_from_raw, uuid_from_raw, DateTime, Sizes, Ule48,
    Uuid,
};

verus! {

/// What the creator of a client chooses.
#[derive(Debug, Clone, Copy, PartialEq, Eq, Structural)]
pub struct ClientConfig {
    /// Bind data channels to the address of all zeros on the object transfer channel,
    /// which takes privileges, and not to the adapter's own address.
    pub privileged: bool,
    /// The security to set on each data channel before it connects.
    pub security: Option<Security>,
}

impl Default for ClientConfig {
    /// No privileges and no security setting.
    fn default() -> (r: Self)
        ensures
            r == (ClientConfig { privileged: false, security: None }),
    {
        ClientConfig { privileged: false, security: None }
    }
}

/// Which of the optional characteristics the server exposes.
#[derive(Debug, Clone, Copy, PartialEq, Eq, Hash, Structural)]
pub struct Presence {
    /// The object list control point.
    pub list_control: bool,
    /// The object identifier.
    pub id: bool,
    /// The creation time.
    pub first_created: bool,
    /// The modification time.
    pub last_modified: bool,
}

impl Presence {
    /// Whether the server exposes the characteristic: each mandatory one, and the
    /// optional ones that were found.
    pub open spec fn spec_has(self, c: Characteristic) -> bool {
        match c {
            Characteristic::ListControl => self.list_control,
            Characteristic::Id => self.id,
            Characteristic::FirstCreated => self.first_created,
            Characteristic::LastModified => self.last_modified,
            _ => true,
        }
    }

    /// No optional characteristic.
    pub fn none() -> (r: Self)
        ensures
            r == (Presence {
                list_control: false,
                id: false,
                first_created: false,
                last_modified: false,
            }),
    {
        Presence { list_control: false, id: false, first_created: false, last_modified: false }
    }

    /// Whether the server exposes the characteristic.
    pub fn has(&self, c: &Characteristic) -> (r: bool)
        ensures
            r == self.spec_has(*c),
    {
        match c {
            Characteristic::ListControl => self.list_control,
            Characteristic::Id => self.id,
            Characteristic::FirstCreated => self.first_created,
            Characteristic::LastModified => self.last_modified,
            _ => true,
        }
    }

    /// The same with the given optional characteristic present or absent.  A mandatory
    /// characteristic changes nothing.
    pub open spec fn spec_with(self, c: Characteristic, present: bool) -> Presence {
        match c {
            Characteristic::ListControl => Presence { list_control: present, ..self },
            Characteristic::Id => Presence { id: present, ..self },
            Characteristic::FirstCreated => Presence { first_created: present, ..self },
            Characteristic::LastModified => Presence { last_modified: present, ..self },
            _ => self,
        }
    }

    /// The same with the given optional characteristic present or absent.
    pub fn with(&self, c: &Characteristic, present: bool) -> (r: Self)
        ensures
            r == self.spec_with(*c, present),
    {
        match c {
            Characteristic::ListControl => Presence {
                list_control: present,
                id: self.id,
                first_created: self.first_created,
                last_modified: self.last_modified,
            },
            Characteristic::Id => Presence {
                list_control: self.list_control,
                id: present,
                first_created: self.first_created,
                last_modified: self.last_modified,
            },
            Characteristic::FirstCreated => Presence {
                list_control: self.list_control,
                id: self.id,
                first_created: present,
                last_modified: self.last_modified,
            },
            Characteristic::LastModified => Presence {
                list_control: self.list_control,
                id: self.id,
                first_created: self.first_created,
                last_modified: present,
            },
            _ => *self,
        }
    }

    /// Noting a characteristic as present or absent changes what is known of it and of
    /// no other.
    pub proof fn lemma_with(self, c: Characteristic, present: bool, d: Characteristic)
        ensures
            self.spec_with(c, present).spec_has(c) == (present || c.spec_is_mandatory()),
            d != c ==> self.spec_with(c, present).spec_has(d) == self.spec_has(d),
    {
    }
}

/// The two addresses between which the data channels of a client run.
///
/// The device is reached on the object transfer channel.  The adapter has its own
/// address on the first dynamic channel, or, with privileges, the address of all zeros,
/// of the random kind, on the object transfer channel.
pub open spec fn spec_addresses(
    privileged: bool,
    adapter: (Seq<u8>, AddressType),
    device: (Seq<u8>, AddressType),
) -> (L2capSockAddrView, L2capSockAddrView) {
    (
        if privileged {
            L2capSockAddrView {
                addr: seq![0u8, 0u8, 0u8, 0u8, 0u8, 0u8],
                type_: AddressType::Random,
                psm: 0x25,
                cid: 0,
            }
        } else {
            L2capSockAddrView { addr: adapter.0, type_: adapter.1, psm: 0x80, cid: 0 }
        },
        L2capSockAddrView { addr: device.0, type_: device.1, psm: 0x25, cid: 0 },
    )
}

/// The address of the adapter's end and the address of the device's end.
pub fn addresses(
    privileged: bool,
    adapter_mac: MacAddress,
    adapter_type: AddressType,
    device_mac: MacAddress,
    device_type: AddressType,
) -> (r: (L2capSockAddr, L2capSockAddr))
    ensures
        (r.0@, r.1@) == spec_addresses(
            privileged,
            (adapter_mac@, adapter_type),
            (device_mac@, device_type),
        ),
{
    let adapter: L2capSockAddr = if privileged {
        let zero: [u8; 6] = [0, 0, 0, 0, 0, 0];
        assert(zero@ =~= seq![0u8, 0u8, 0u8, 0u8, 0u8, 0u8]);
        L2capSockAddr::new_le_cid_ots(zero, AddressType::Random)
    } else {
        L2capSockAddr::new_le_dyn_start(adapter_mac, adapter_type)
    };
    (adapter, L2capSockAddr::new_le_cid_ots(device_mac, device_type))
}

/// What the eight bytes of the feature characteristic decode to: the action features in
/// the first four, the list features in the next four.  Fewer than eight bytes are
/// `NotEnoughData`; an undefined bit is `BadActionFeatures` or `BadListFeatures`.
pub open spec fn spec_decode_features(raw: Seq<u8>) -> Result<(ActionFeature, ListFeature), Error> {
    if raw.len() < 8 {
        Err(Error::NotEnoughData { actual: raw.len() as usize, needed: 8 })
    } else {
        match ActionFeature::spec_read(raw.subrange(0, 4)) {
            Err(e) => Err(e),
            Ok(action) => match ListFeature::spec_read(raw.subrange(4, 8)) {
                Err(e) => Err(e),
                Ok(list) => Ok((action, list)),
            },
        }
    }
}

/// Decodes the value of the feature characteristic.
pub fn decode_features(raw: &[u8]) -> (r: Result<(ActionFeature, ListFeature), Error>)
    ensures
        r == spec_decode_features(raw@),
        r matches Ok(f) ==> f.0.is_valid() && f.1.is_valid(),
{
    if raw.len() < 8 {
        return Err(Error::NotEnoughData { actual: raw.len(), needed: 8 });
    }
    let action: ActionFeature = ActionFeature::read(raw, 0)?;
    let list: ListFeature = ListFeature::read(raw, 4)?;
    Ok((action, list))
}

/// What a client knows of its server.
#[derive(Debug, Clone, Copy, PartialEq, Eq)]
pub struct OtsClient {
    /// The actions that the server offers.
    pub action_features: ActionFeature,
    /// The list operations that the server offers.
    pub list_features: ListFeature,
    /// The optional characteristics that the server exposes.
    pub present: Presence,
    /// The local end of the data channels.
    pub adapter_addr: L2capSockAddr,
    /// The remote end of the data channels.
    pub device_addr: L2capSockAddr,
    /// The security to set on each data channel.
    pub sock_security: Option<Security>,
}

impl OtsClient {
    /// Both feature sets hold defined bits only.
    pub open spec fn wf(&self) -> bool {
        self.action_features.is_valid() && self.list_features.is_valid()
    }

    /// What becomes of a request to the action control point: its bytes where the
    /// server advertises the feature it needs, else `NotSupported`.
    pub open spec fn spec_action_request(&self, req: &ActionReq) -> Result<Seq<u8>, Error> {
        if req.spec_allowed(self.action_features) {
            Ok(req.spec_encode())
        } else {
            Err(Error::NotSupported)
        }
    }

    /// What becomes of a request to the list control point: its bytes where the server
    /// exposes the control point and advertises the feature the request needs, if it
    /// needs one, else `NotSupported`.
    pub open spec fn spec_list_request(&self, req: ListReq) -> Result<Seq<u8>, Error> {
        if self.present.list_control && req.spec_allowed(self.list_features) {
            Ok(req.spec_encode())
        } else {
            Err(Error::NotSupported)
        }
    }

    /// The actions that the server offers.
    pub fn action_features(&self) -> (r: &ActionFeature)
        ensures
            *r == self.action_features,
    {
        &self.action_features
    }

    /// The list operations that the server offers.
    pub fn list_features(&self) -> (r: &ListFeature)
        ensures
            *r == self.list_features,
    {
        &self.list_features
    }

    /// Whether the server exposes the characteristic.
    pub fn has(&self, c: &Characteristic) -> (r: bool)
        ensures
            r == self.present.spec_has(*c),
    {
        self.present.has(c)
    }

    /// Whether an operation that needs the characteristic can go on: `NotSupported` where
    /// the server does not expose it.
    pub fn require(&self, c: &Characteristic) -> (r: Result<(), Error>)
        ensures
            r == (if self.present.spec_has(*c) {
                Ok::<(), Error>(())
            } else {
                Err(Error::NotSupported)
            }),
    {
        if self.present.has(c) {
            Ok(())
        } else {
            Err(Error::NotSupported)
        }
    }

    /// The bytes to write to the action control point for a request, or `NotSupported`
    /// where the server does not advertise the feature.
    pub fn action_request(&self, req: &ActionReq) -> (r: Result<Vec<u8>, Error>)
        ensures
            result_view(r) == self.spec_action_request(req),
    {
        if !req.allowed(&self.action_features) {
            return Err(Error::NotSupported);
        }
        Ok(req.encode())
    }

    /// The bytes to write to the list control point for a request, or `NotSupported`
    /// where the server lacks the control point or does not advertise the feature.
    pub fn list_request(&self, req: &ListReq) -> (r: Result<Vec<u8>, Error>)
        ensures
            result_view(r) == self.spec_list_request(*req),
    {
        if !self.present.list_control {
            return Err(Error::NotSupported);
        }
        if !req.allowed(&self.list_features) {
            return Err(Error::NotSupported);
        }
        Ok(req.encode())
    }

    /// A request whose feature bit the server has not set is refused, whatever its
    /// arguments, and gives no bytes to write.
    pub proof fn lemma_gated(&self, action: &ActionReq, list: ListReq)
        ensures
            !self.action_features.spec_contains(action.spec_required_feature())
                ==> self.spec_action_request(action) == Err::<Seq<u8>, Error>(
                Error::NotSupported,
            ),
            list.spec_required_feature() matches Some(mask) && !self.list_features.spec_contains(
                mask,
            ) ==> self.spec_list_request(list) == Err::<Seq<u8>, Error>(Error::NotSupported),
    {
    }

    /// Without a list control point every list request is refused; with one, the four
    /// that move the selection step by step always pass.
    pub proof fn lemma_list_control(&self, req: ListReq)
        ensures
            !self.present.list_control ==> self.spec_list_request(req) == Err::<Seq<u8>, Error>(
                Error::NotSupported,
            ),
            self.present.list_control && (req == ListReq::First || req == ListReq::Last || req
                == ListReq::Previous || req == ListReq::Next) ==> self.spec_list_request(req)
                == Ok::<Seq<u8>, Error>(req.spec_encode()),
    {
    }
}

/// Whether a move of the selection took place: yes after a success, no after the
/// failure `miss`, which says that there is nothing to move to.  Any other error stays
/// an error.
pub open spec fn spec_selected(outcome: Result<ListRes, Error>, miss: ListRc) -> Result<
    bool,
    Error,
> {
    match outcome {
        Ok(_) => Ok(true),
        Err(Error::ListError(rc)) => if rc == miss {
            Ok(false)
        } else {
            Err(Error::ListError(rc))
        },
        Err(e) => Err(e),
    }
}

/// Whether a move of the selection took place.
pub fn selected(outcome: Result<ListRes, Error>, miss: ListRc) -> (r: Result<bool, Error>)
    ensures
        r == spec_selected(outcome, miss),
{
    match outcome {
        Ok(_) => Ok(true),
        Err(Error::ListError(rc)) => {
            if rc == miss {
                Ok(false)
            } else {
                Err(Error::ListError(rc))
            }
        },
        Err(e) => Err(e),
    }
}

/// Whether the server selected the previous object; `false` at the start of the list.
pub fn previous(raw: &[u8]) -> (r: Result<bool, Error>)
    ensures
        r == spec_selected(ListReq::Previous.spec_accept(raw@), ListRc::OutOfBounds),
{
    selected(ListReq::Previous.accept(raw), ListRc::OutOfBounds)
}

/// Whether the server selected the next object; `false` at the end of the list.
pub fn next(raw: &[u8]) -> (r: Result<bool, Error>)
    ensures
        r == spec_selected(ListReq::Next.spec_accept(raw@), ListRc::OutOfBounds),
{
    selected(ListReq::Next.accept(raw), ListRc::OutOfBounds)
}

/// Whether the server selected the object with the identifier `id`; `false` where it has
/// none of that identifier.
pub fn go_to(id: u64, raw: &[u8]) -> (r: Result<bool, Error>)
    ensures
        r == spec_selected((ListReq::GoTo { id }).spec_accept(raw@), ListRc::ObjectIdNotFound),
{
    selected((ListReq::GoTo { id }).accept(raw), ListRc::ObjectIdNotFound)
}

/// The number of objects that the server reports in answer to `NumberOf`.
pub fn number_of(raw: &[u8]) -> (r: Result<u32, Error>)
    ensures
        r == (match ListReq::NumberOf.spec_accept(raw@) {
            Ok(ListRes::NumberOf { count }) => Ok::<u32, Error>(count),
            Ok(_) => Err(Error::BadResponse),
            Err(e) => Err(e),
        }),
{
    match ListReq::NumberOf.accept(raw) {
        Ok(ListRes::NumberOf { count }) => Ok(count),
        Ok(_) => Err(Error::BadResponse),
        Err(e) => Err(e),
    }
}

/// The checksum that the server reports in answer to `CheckSum`.
pub fn check_sum(offset: usize, length: usize, raw: &[u8]) -> (r: Result<u32, Error>)
    ensures
        r == (match (ActionReq::CheckSum { offset, length }).spec_accept(raw@) {
            Ok(ActionResView::CheckSum { value }) => Ok::<u32, Error>(value),
            Ok(_) => Err(Error::BadResponse),
            Err(e) => Err(e),
        }),
{
    match (ActionReq::CheckSum { offset, length }).accept(raw) {
        Ok(ActionRes::CheckSum { value }) => Ok(value),
        Ok(_) => Err(Error::BadResponse),
        Err(e) => Err(e),
    }
}

/// What the server returned in answer to `Execute`: the bytes behind the success, or
/// `BadResponse` where the response is of another kind.
pub fn execute(raw: &[u8]) -> (r: Result<Vec<u8>, Error>)
    ensures
        match ActionRes::spec_decode(raw@) {
            Ok(ActionResView::Execute { param }) => r matches Ok(v) && v@ == param,
            Ok(_) => r matches Err(e) && e == Error::BadResponse,
            Err(e) => r matches Err(f) && f == e,
        },
{
    match ActionRes::try_from(raw) {
        Ok(ActionRes::Execute { param }) => Ok(param),
        Ok(_) => Err(Error::BadResponse),
        Err(e) => Err(e),
    }
}

/// Whether the server did what a request without a return value asked for: `Create`,
/// `Delete`, `Read`, `Write` or `Abort`.
pub fn done(raw: &[u8]) -> (r: Result<(), Error>)
    ensures
        r == (match ActionReq::Delete.spec_accept(raw@) {
            Ok(_) => Ok::<(), Error>(()),
            Err(e) => Err(e),
        }),
{
    match ActionReq::Delete.accept(raw) {
        Ok(_) => Ok(()),
        Err(e) => Err(e),
    }
}

/// Whether the server did what a list request without a return value asked for.
pub fn listed(raw: &[u8]) -> (r: Result<(), Error>)
    ensures
        r == (match ListReq::First.spec_accept(raw@) {
            Ok(_) => Ok::<(), Error>(()),
            Err(e) => Err(e),
        }),
{
    match ListReq::First.accept(raw) {
        Ok(_) => Ok(()),
        Err(e) => Err(e),
    }
}

/// How many bytes a transfer covers: as many as were asked for, or all the object has
/// where none were, but no more than lie between the offset and the end.  An offset
/// behind the end leaves nothing.
pub open spec fn spec_window(requested: Option<usize>, size: usize, offset: usize) -> usize {
    let wanted = match requested {
        Some(n) => n,
        None => size,
    };
    let left = if offset <= size {
        (size - offset) as usize
    } else {
        0
    };
    if wanted <= left {
        wanted
    } else {
        left
    }
}

/// How many bytes a transfer of an object of `size` bytes covers.
pub fn window(requested: Option<usize>, size: usize, offset: usize) -> (r: usize)
    ensures
        r == spec_window(requested, size, offset),
        r <= size,
        offset <= size ==> offset + r <= size,
{
    let wanted: usize = match requested {
        Some(n) => n,
        None => size,
    };
    let left: usize = if offset <= size {
        size - offset
    } else {
        0
    };
    if wanted <= left {
        wanted
    } else {
        left
    }
}

/// How many bytes a read covers: the window within what the object holds.
pub fn read_window(size: &Sizes, offset: usize, length: Option<usize>) -> (r: usize)
    ensures
        r == spec_window(length, size.current, offset),
{
    window(length, size.current, offset)
}

/// How many bytes a write covers: the window within what the object can hold.
pub fn write_window(size: &Sizes, offset: usize, length: Option<usize>) -> (r: usize)
    ensures
        r == spec_window(length, size.allocated, offset),
{
    window(length, size.allocated, offset)
}

/// The values read of the selected object, one for each characteristic.
#[derive(Debug, Clone, PartialEq, Eq)]
pub struct Readings {
    /// The identifier; `None` where the server has no such characteristic.
    pub id: Option<Vec<u8>>,
    /// The name.
    pub name: Vec<u8>,
    /// The type.
    pub type_: Vec<u8>,
    /// The sizes; `None` where they could not be read.
    pub size: Option<Vec<u8>>,
    /// The creation time; `None` where the server has no such characteristic.
    pub first_created: Option<Vec<u8>>,
    /// The modification time; `None` where the server has no such characteristic.
    pub last_modified: Option<Vec<u8>>,
    /// The properties; `None` where they could not be read.
    pub properties: Option<Vec<u8>>,
}

/// The bytes of a value that may be absent, as a sequence.
pub open spec fn opt_view(v: Option<Vec<u8>>) -> Option<Seq<u8>> {
    match v {
        Some(b) => Some(b@),
        None => None,
    }
}

/// What an identifier that may be absent decodes to.
pub open spec fn spec_opt_id(raw: Option<Seq<u8>>) -> Result<Option<u64>, Error> {
    match raw {
        None => Ok(None),
        Some(b) => match Ule48::spec_decode(b) {
            Err(e) => Err(e),
            Ok(id) => Ok(Some(id.spec_value() as u64)),
        },
    }
}

/// What a time that may be absent decodes to.
pub open spec fn spec_opt_time(raw: Option<Seq<u8>>) -> Result<Option<DateTime>, Error> {
    match raw {
        None => Ok(None),
        Some(b) => match DateTime::spec_decode(b) {
            Err(e) => Err(e),
            Ok(t) => Ok(Some(t)),
        },
    }
}

/// The sizes for the metadata: both absent where they could not be read or decoded.
pub open spec fn spec_lenient_sizes(raw: Option<Seq<u8>>) -> (Option<usize>, Option<usize>) {
    match raw {
        None => (None, None),
        Some(b) => match Sizes::spec_decode(b) {
            Err(_) => (None, None),
            Ok(s) => (Some(s.current), Some(s.allocated)),
        },
    }
}

/// The properties for the metadata: none where they could not be read or decoded.
pub open spec fn spec_lenient_properties(raw: Option<Seq<u8>>) -> Property {
    match raw {
        None => Property { bits: 0 },
        Some(b) => match Property::spec_decode(b) {
            Err(_) => Property { bits: 0 },
            Ok(p) => p,
        },
    }
}

/// The metadata that the values read of an object make up.
///
/// The identifier, the name, the type and the two times must decode, and the first
/// of them that does not is the error.  Sizes and properties that are missing or do
/// not decode leave the sizes absent and the properties empty.
pub open spec fn spec_metadata(
    id: Option<Seq<u8>>,
    name: Seq<u8>,
    type_: Seq<u8>,
    size: Option<Seq<u8>>,
    first_created: Option<Seq<u8>>,
    last_modified: Option<Seq<u8>>,
    properties: Option<Seq<u8>>,
) -> Result<MetadataView, Error> {
    match spec_opt_id(id) {
        Err(e) => Err(e),
        Ok(id) => match spec_decode_name(name) {
            Err(e) => Err(e),
            Ok(name) => match spec_uuid_from_raw(type_) {
                Err(e) => Err(e),
                Ok(type_) => match spec_opt_time(first_created) {
                    Err(e) => Err(e),
                    Ok(first_created) => match spec_opt_time(last_modified) {
                        Err(e) => Err(e),
                        Ok(last_modified) => Ok(
                            MetadataView {
                                id,
                                name,
                                type_,
                                current_size: spec_lenient_sizes(size).0,
                                allocated_size: spec_lenient_sizes(size).1,
                                first_created,
                                last_modified,
                                properties: spec_lenient_properties(properties),
                            },
                        ),
                    },
                },
            },
        },
    }
}

/// The metadata that the values of an object make up once each is decoded.  Sizes that
/// could not be had leave both sizes absent, and properties that could not be had are
/// none.
pub open spec fn spec_compose(
    id: Option<u64>,
    name: Seq<char>,
    type_: Seq<u8>,
    size: Option<Sizes>,
    first_created: Option<DateTime>,
    last_modified: Option<DateTime>,
    properties: Option<Property>,
) -> MetadataView {
    MetadataView {
        id,
        name,
        type_,
        current_size: match size {
            Some(s) => Some(s.current),
            None => None,
        },
        allocated_size: match size {
            Some(s) => Some(s.allocated),
            None => None,
        },
        first_created,
        last_modified,
        properties: match properties {
            Some(p) => p,
            None => Property { bits: 0 },
        },
    }
}

/// Makes the metadata of an object out of its decoded values.
pub fn compose(
    id: Option<u64>,
    name: String,
    type_: Uuid,
    size: Option<Sizes>,
    first_created: Option<DateTime>,
    last_modified: Option<DateTime>,
    properties: Option<Property>,
) -> (r: Metadata)
    ensures
        r@ == spec_compose(id, name@, type_@, size, first_created, last_modified, properties),
{
    let (current_size, allocated_size): (Option<usize>, Option<usize>) = match size {
        Some(s) => (Some(s.current), Some(s.allocated)),
        None => (None, None),
    };
    let properties: Property = match properties {
        Some(p) => p,
        None => Property::empty(),
    };
    Metadata {
        id,
        name,
        type_,
        current_size,
        allocated_size,
        first_created,
        last_modified,
        properties,
    }
}

/// Decodes an identifier that may be absent.
pub fn decode_opt_id(raw: &Option<Vec<u8>>) -> (r: Result<Option<u64>, Error>)
    ensures
        r == spec_opt_id(opt_view(*raw)),
{
    match raw {
        None => Ok(None),
        Some(b) => {
            let id: Ule48 = Ule48::try_from(b.as_slice())?;
            Ok(Some(id.to_u64()))
        },
    }
}

/// Decodes a time that may be absent.
pub fn decode_opt_time(raw: &Option<Vec<u8>>) -> (r: Result<Option<DateTime>, Error>)
    ensures
        r == spec_opt_time(opt_view(*raw)),
{
    match raw {
        None => Ok(None),
        Some(b) => {
            let t: DateTime = DateTime::try_from(b.as_slice())?;
            Ok(Some(t))
        },
    }
}

impl OtsClient {
    /// Makes the metadata of the selected object out of the values read of it.  A value
    /// of a characteristic that the server does not expose counts as absent.
    pub fn metadata(&self, readings: &Readings) -> (r: Result<Metadata, Error>)
        ensures
            result_view(r) == spec_metadata(
                if self.present.id {
                    opt_view(readings.id)
                } else {
                    None
                },
                readings.name@,
                readings.type_@,
                opt_view(readings.size),
                if self.present.first_created {
                    opt_view(readings.first_created)
                } else {
                    None
                },
                if self.present.last_modified {
                    opt_view(readings.last_modified)
                } else {
                    None
                },
                opt_view(readings.properties),
            ),
    {
        let none: Option<Vec<u8>> = None;
        let id: Option<u64> = decode_opt_id(
            if self.present.id {
                &readings.id
            } else {
                &none
            },
        )?;
        let name: String = decode_name(readings.name.as_slice())?;
        let type_: Uuid = uuid_from_raw(readings.type_.as_slice())?;
        let first_created: Option<DateTime> = decode_opt_time(
            if self.present.first_created {
                &readings.first_created
            } else {
                &none
            },
        )?;
        let last_modified: Option<DateTime> = decode_opt_time(
            if self.present.last_modified {
                &readings.last_modified
            } else {
                &none
            },
        )?;
        let size: Option<Sizes> = match &readings.size {
            None => None,
            Some(b) => match Sizes::try_from(b.as_slice()) {
                Err(_) => None,
                Ok(s) => Some(s),
            },
        };
        let properties: Option<Property> = match &readings.properties {
            None => None,
            Some(b) => match Property::try_from(b.as_slice()) {
                Err(_) => None,
                Ok(p) => Some(p),
            },
        };
        Ok(compose(id, name, type_, size, first_created, last_modified, properties))
    }
}

} // verus!
