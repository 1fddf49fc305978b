//! The two control-point protocols: requests as they are written to the server and
//! responses as the server notifies them.
//!
//! A request is one opcode byte and its parameters.  A response is three bytes, the
//! response marker, the opcode it answers and a result code, and after them what the
//! operation returns.

use vstd::prelude::*;
use vstd::std_specs::convert::FromSpecImpl;
use vstd::slice::{slice_subrange, slice_to_vec};

use crate::codes::{ActionOp, ActionRc, ListOp, ListRc, SortOrder};
use crate::error::{result_view, Error, OpType};
use crate::flags::{ActionFeature, ListFeature, WriteMode};
use crate::le::{push_u32, push_u48, read_u32, u32_from_le, u32_to_le, u48_to_le};
use crate::types::Uuid;

verus! {

/// The least number of bytes a response has: marker, opcode, result code.
pub const MIN_RESPONSE_LEN: usize = 3;

/// A request to the object list control point.
#[derive(Debug, Clone, Copy, PartialEq, Eq, PartialOrd, Ord, Hash, Structural)]
pub enum ListReq {
    /// Select the first object.
    First,
    /// Select the last object.
    Last,
    /// Select the object before the selected one.
    Previous,
    /// Select the object after the selected one.
    Next,
    /// Select the object with the given identifier, of which the low 48 bits travel.
    GoTo { id: u64 },
    /// List the objects in the given order.
    Order { order: SortOrder },
    /// Ask how many objects there are.
    NumberOf,
    /// Clear the marks of all objects.
    ClearMark,
}

/// A request to the object list control point.
pub type OlcpReq = ListReq;

/// What the object list control point returns on success.
#[derive(Debug, Clone, Copy, PartialEq, Eq, PartialOrd, Ord, Hash, Structural)]
pub enum ListRes {
    /// Nothing but the success.
    Done,
    /// The number of objects.
    NumberOf { count: u32 },
}

/// What the object list control point returns on success.
pub type OlcpRes = ListRes;

impl ListReq {
    /// The opcode of the request.
    pub open spec fn spec_op(self) -> ListOp {
        match self {
            ListReq::First => ListOp::First,
            ListReq::Last => ListOp::Last,
            ListReq::Previous => ListOp::Previous,
            ListReq::Next => ListOp::Next,
            ListReq::GoTo { .. } => ListOp::GoTo,
            ListReq::Order { .. } => ListOp::Order,
            ListReq::NumberOf => ListOp::NumberOf,
            ListReq::ClearMark => ListOp::ClearMark,
        }
    }

    /// The bytes of the request: the opcode, then six bytes of identifier for `GoTo` and
    /// one byte of order for `Order`.
    pub open spec fn spec_encode(self) -> Seq<u8> {
        match self {
            ListReq::GoTo { id } => seq![self.spec_op().spec_code()] + u48_to_le(id as int),
            ListReq::Order { order } => seq![self.spec_op().spec_code(), order.spec_code()],
            _ => seq![self.spec_op().spec_code()],
        }
    }

    /// The feature bit that the server must advertise for the request, if any.
    pub open spec fn spec_required_feature(self) -> Option<u32> {
        match self {
            ListReq::GoTo { .. } => Some(ListFeature::GO_TO),
            ListReq::Order { .. } => Some(ListFeature::ORDER),
            ListReq::NumberOf => Some(ListFeature::NUMBER_OF),
            ListReq::ClearMark => Some(ListFeature::CLEAR_MARK),
            _ => None,
        }
    }

    /// Whether a server with the given features takes the request.
    pub open spec fn spec_allowed(self, features: ListFeature) -> bool {
        match self.spec_required_feature() {
            Some(mask) => features.spec_contains(mask),
            None => true,
        }
    }

    /// What a successful response to the request holds, where `count` is the number of
    /// objects that the server reports.
    pub open spec fn spec_expected(self, count: u32) -> ListRes {
        match self {
            ListReq::NumberOf => ListRes::NumberOf { count },
            _ => ListRes::Done,
        }
    }

    /// The bytes of the successful response to the request.
    pub open spec fn spec_ideal_response(self, count: u32) -> Seq<u8> {
        let head = seq![
            ListOp::Response.spec_code(),
            self.spec_op().spec_code(),
            ListRc::Success.spec_code(),
        ];
        match self {
            ListReq::NumberOf => head + u32_to_le(count as int),
            _ => head,
        }
    }

    /// The opcode of the request.
    pub fn op(&self) -> (r: ListOp)
        ensures
            r == self.spec_op(),
    {
        match self {
            ListReq::First => ListOp::First,
            ListReq::Last => ListOp::Last,
            ListReq::Previous => ListOp::Previous,
            ListReq::Next => ListOp::Next,
            ListReq::GoTo { .. } => ListOp::GoTo,
            ListReq::Order { .. } => ListOp::Order,
            ListReq::NumberOf => ListOp::NumberOf,
            ListReq::ClearMark => ListOp::ClearMark,
        }
    }

    /// The bytes of the request.
    pub fn encode(&self) -> (r: Vec<u8>)
        ensures
            r@ == self.spec_encode(),
    {
        let mut out: Vec<u8> = Vec::with_capacity(7);
        out.push(self.op().code());
        match self {
            ListReq::GoTo { id } => {
                push_u48(&mut out, *id);
            },
            ListReq::Order { order } => {
                out.push(order.code());
            },
            _ => {},
        }
        assert(out@ =~= self.spec_encode());
        out
    }

    /// The feature bit that the server must advertise for the request, if any.
    pub fn required_feature(&self) -> (r: Option<u32>)
        ensures
            r == self.spec_required_feature(),
    {
        match self {
            ListReq::GoTo { .. } => Some(ListFeature::GO_TO),
            ListReq::Order { .. } => Some(ListFeature::ORDER),
            ListReq::NumberOf => Some(ListFeature::NUMBER_OF),
            ListReq::ClearMark => Some(ListFeature::CLEAR_MARK),
            _ => None,
        }
    }

    /// Whether a server with the given features takes the request.
    pub fn allowed(&self, features: &ListFeature) -> (r: bool)
        ensures
            r == self.spec_allowed(*features),
    {
        match self.required_feature() {
            Some(mask) => features.contains(mask),
            None => true,
        }
    }

    /// What the notified value `raw` means as the answer to the request: what it decodes
    /// to, or `BadResponse` where it holds a count that was not asked for, or none where
    /// one was.
    pub open spec fn spec_accept(self, raw: Seq<u8>) -> Result<ListRes, Error> {
        match ListRes::spec_decode(raw) {
            Err(e) => Err(e),
            Ok(res) => if (self == ListReq::NumberOf) == (res is NumberOf) {
                Ok(res)
            } else {
                Err(Error::BadResponse)
            },
        }
    }

    /// Decodes the notified value `raw` as the answer to the request.
    pub fn accept(&self, raw: &[u8]) -> (r: Result<ListRes, Error>)
        ensures
            r == self.spec_accept(raw@),
    {
        let res: ListRes = ListRes::try_from(raw)?;
        let wants_count: bool = match self {
            ListReq::NumberOf => true,
            _ => false,
        };
        let has_count: bool = match res {
            ListRes::NumberOf { .. } => true,
            _ => false,
        };
        if wants_count == has_count {
            Ok(res)
        } else {
            Err(Error::BadResponse)
        }
    }

    /// The bytes of the successful response to the request.
    pub fn ideal_response(&self, count: u32) -> (r: Vec<u8>)
        ensures
            r@ == self.spec_ideal_response(count),
    {
        let mut out: Vec<u8> = Vec::with_capacity(7);
        out.push(ListOp::Response.code());
        out.push(self.op().code());
        out.push(ListRc::Success.code());
        match self {
            ListReq::NumberOf => {
                push_u32(&mut out, count as u64);
            },
            _ => {},
        }
        assert(out@ =~= self.spec_ideal_response(count));
        out
    }

    /// Decoding the successful response to a request gives what the request expects.
    pub proof fn lemma_ideal_response(self, count: u32)
        ensures
            ListRes::spec_decode(self.spec_ideal_response(count)) == Ok::<ListRes, Error>(
                self.spec_expected(count),
            ),
            self.spec_accept(self.spec_ideal_response(count)) == Ok::<ListRes, Error>(
                self.spec_expected(count),
            ),
    {
        let raw = self.spec_ideal_response(count);
        if self == ListReq::NumberOf {
            crate::le::lemma_u32_round_trip(count as int);
            assert(raw.subrange(3, 7) =~= u32_to_le(count as int));
        }
    }

    /// A request is its opcode and nothing more, but for `GoTo`, which adds the six
    /// bytes of the identifier, and `Order`, which adds one.
    pub proof fn lemma_encode_len(self)
        ensures
            self.spec_encode()[0] == self.spec_op().spec_code(),
            self.spec_encode().len() == (match self {
                ListReq::GoTo { .. } => 7nat,
                ListReq::Order { .. } => 2nat,
                _ => 1nat,
            }),
    {
    }
}

impl ListRes {
    /// What a notified value decodes to.
    ///
    /// Fewer than three bytes are `NotEnoughData`.  A first byte other than the response
    /// marker is `BadResponse`.  A third byte that is no result code is `BadOpCode`; one
    /// that is a failure is `ListError` with the code.  On success the second byte must
    /// be an opcode, and for `NumberOf` four more bytes hold the count.
    pub open spec fn spec_decode(raw: Seq<u8>) -> Result<ListRes, Error> {
        if raw.len() < 3 {
            Err(Error::NotEnoughData { actual: raw.len() as usize, needed: 3 })
        } else if raw[0] != ListOp::Response.spec_code() {
            Err(Error::BadResponse)
        } else {
            match ListRc::spec_from_code(raw[2]) {
                None => Err(Error::BadOpCode { type_: OpType::ListRc, code: raw[2] }),
                Some(ListRc::Success) => match ListOp::spec_from_code(raw[1]) {
                    None => Err(Error::BadOpCode { type_: OpType::ListOp, code: raw[1] }),
                    Some(ListOp::NumberOf) => if raw.len() < 7 {
                        Err(Error::NotEnoughData { actual: raw.len() as usize, needed: 7 })
                    } else {
                        Ok(ListRes::NumberOf { count: u32_from_le(raw.subrange(3, 7)) as u32 })
                    },
                    Some(_) => Ok(ListRes::Done),
                },
                Some(rc) => Err(Error::ListError(rc)),
            }
        }
    }

    /// The least number of bytes of a response that holds this.
    pub open spec fn spec_min_wire_length(self) -> nat {
        match self {
            ListRes::Done => 3,
            ListRes::NumberOf { .. } => 7,
        }
    }

    /// Decodes a notified value.
    pub fn try_from(raw: &[u8]) -> (r: Result<Self, Error>)
        ensures
            r == Self::spec_decode(raw@),
    {
        if raw.len() < 3 {
            return Err(Error::NotEnoughData { actual: raw.len(), needed: 3 });
        }
        if raw[0] != ListOp::Response.code() {
            return Err(Error::BadResponse);
        }
        let rc: ListRc = match ListRc::try_from(raw[2]) {
            Ok(rc) => rc,
            Err(e) => {
                return Err(e);
            },
        };
        match rc {
            ListRc::Success => {
                let op: ListOp = match ListOp::try_from(raw[1]) {
                    Ok(op) => op,
                    Err(e) => {
                        return Err(e);
                    },
                };
                match op {
                    ListOp::NumberOf => {
                        if raw.len() < 7 {
                            return Err(Error::NotEnoughData { actual: raw.len(), needed: 7 });
                        }
                        Ok(ListRes::NumberOf { count: read_u32(raw, 3) })
                    },
                    _ => Ok(ListRes::Done),
                }
            },
            _ => Err(Error::ListError(rc)),
        }
    }

    /// The least number of bytes of a response that holds this.
    pub fn min_wire_length(&self) -> (r: usize)
        ensures
            r == self.spec_min_wire_length(),
            r >= MIN_RESPONSE_LEN,
    {
        match self {
            ListRes::Done => 3,
            ListRes::NumberOf { .. } => 7,
        }
    }

    /// A value that decodes is no shorter than what it decodes to needs, which is three
    /// bytes at the least; a value of fewer than three bytes is `NotEnoughData`.
    pub proof fn lemma_min_wire_length(raw: Seq<u8>)
        ensures
            Self::spec_decode(raw) matches Ok(res) ==> 3 <= res.spec_min_wire_length()
                <= raw.len(),
            raw.len() < 3 ==> Self::spec_decode(raw) == Err::<ListRes, Error>(
                Error::NotEnoughData { actual: raw.len() as usize, needed: 3 },
            ),
    {
    }

    /// A value decodes to the same as its first bytes, as many as what it decodes to
    /// needs: what follows them is not read.
    pub proof fn lemma_consumes(raw: Seq<u8>)
        requires
            raw.len() <= usize::MAX,
        ensures
            Self::spec_decode(raw) matches Ok(res) ==> Self::spec_decode(
                raw.subrange(0, res.spec_min_wire_length() as int),
            ) == Ok::<ListRes, Error>(res),
    {
        match Self::spec_decode(raw) {
            Ok(res) => {
                let short = raw.subrange(0, res.spec_min_wire_length() as int);
                if res is NumberOf {
                    assert(short.subrange(3, 7) =~= raw.subrange(3, 7));
                }
            },
            _ => {},
        }
    }

    /// A failure code in a response is the error of the response, whatever else it holds.
    pub proof fn lemma_failure_is_error(raw: Seq<u8>, rc: ListRc)
        requires
            raw.len() >= 3,
            raw[0] == ListOp::Response.spec_code(),
            raw[2] == rc.spec_code(),
            rc != ListRc::Success,
        ensures
            Self::spec_decode(raw) == Err::<ListRes, Error>(Error::ListError(rc)),
    {
        rc.lemma_code_round_trip();
    }
}

/// A request to the object action control point.
///
/// Offsets, lengths and sizes have the width of the platform; their low 32 bits travel.
#[derive(Debug, Clone, PartialEq, Eq, PartialOrd, Ord, Hash)]
pub enum ActionReq {
    /// Create an object of the given size and type, and select it.
    Create { size: usize, type_: Uuid },
    /// Delete the selected object.
    Delete,
    /// Compute the checksum of a part of the selected object.
    CheckSum { offset: usize, length: usize },
    /// Execute the selected object with the given parameter.
    Execute { param: Vec<u8> },
    /// Send a part of the selected object through the data channel.
    Read { offset: usize, length: usize },
    /// Take a part of the selected object from the data channel.
    Write { offset: usize, length: usize, mode: WriteMode },
    /// Abort the read in progress.
    Abort,
}

/// A request to the object action control point.
pub type OacpReq = ActionReq;

/// What the object action control point returns on success.
#[derive(Debug, Clone, PartialEq, Eq, PartialOrd, Ord, Hash)]
pub enum ActionRes {
    /// Nothing but the success.
    Done,
    /// The checksum.
    CheckSum { value: u32 },
    /// What the execution returned.
    Execute { param: Vec<u8> },
}

/// What the object action control point returns on success.
pub type OacpRes = ActionRes;

/// An `ActionRes` with its bytes as a sequence.
pub enum ActionResView {
    /// Nothing but the success.
    Done,
    /// The checksum.
    CheckSum { value: u32 },
    /// What the execution returned.
    Execute { param: Seq<u8> },
}

impl View for ActionRes {
    type V = ActionResView;

    open spec fn view(&self) -> ActionResView {
        match self {
            ActionRes::Done => ActionResView::Done,
            ActionRes::CheckSum { value } => ActionResView::CheckSum { value: *value },
            ActionRes::Execute { param } => ActionResView::Execute { param: param@ },
        }
    }
}

impl ActionReq {
    /// The opcode of the request.
    pub open spec fn spec_op(&self) -> ActionOp {
        match self {
            ActionReq::Create { .. } => ActionOp::Create,
            ActionReq::Delete => ActionOp::Delete,
            ActionReq::CheckSum { .. } => ActionOp::CheckSum,
            ActionReq::Execute { .. } => ActionOp::Execute,
            ActionReq::Read { .. } => ActionOp::Read,
            ActionReq::Write { .. } => ActionOp::Write,
            ActionReq::Abort => ActionOp::Abort,
        }
    }

    /// The parameters of the request as they follow the opcode: each size, offset and
    /// length in four bytes, a type in all its sixteen, a write mode in one, and the
    /// parameter of an execution as it stands.
    pub open spec fn spec_params(&self) -> Seq<u8> {
        match self {
            ActionReq::Create { size, type_ } => u32_to_le(*size as int) + type_@,
            ActionReq::CheckSum { offset, length } => u32_to_le(*offset as int) + u32_to_le(
                *length as int,
            ),
            ActionReq::Execute { param } => param@,
            ActionReq::Read { offset, length } => u32_to_le(*offset as int) + u32_to_le(
                *length as int,
            ),
            ActionReq::Write { offset, length, mode } => u32_to_le(*offset as int) + u32_to_le(
                *length as int,
            ) + seq![mode.bits],
            _ => Seq::<u8>::empty(),
        }
    }

    /// The bytes of the request: the opcode, then the parameters.
    pub open spec fn spec_encode(&self) -> Seq<u8> {
        seq![self.spec_op().spec_code()] + self.spec_params()
    }

    /// The feature bit that the server must advertise for the request.
    pub open spec fn spec_required_feature(&self) -> u32 {
        match self {
            ActionReq::Create { .. } => ActionFeature::CREATE,
            ActionReq::Delete => ActionFeature::DELETE,
            ActionReq::CheckSum { .. } => ActionFeature::CHECK_SUM,
            ActionReq::Execute { .. } => ActionFeature::EXECUTE,
            ActionReq::Read { .. } => ActionFeature::READ,
            ActionReq::Write { .. } => ActionFeature::WRITE,
            ActionReq::Abort => ActionFeature::ABORT,
        }
    }

    /// Whether a server with the given features takes the request.
    pub open spec fn spec_allowed(&self, features: ActionFeature) -> bool {
        features.spec_contains(self.spec_required_feature())
    }

    /// What a successful response to the request holds, where `value` is the checksum
    /// and `output` the bytes that the server returns.
    pub open spec fn spec_expected(&self, value: u32, output: Seq<u8>) -> ActionResView {
        match self {
            ActionReq::CheckSum { .. } => ActionResView::CheckSum { value },
            ActionReq::Execute { .. } => ActionResView::Execute { param: output },
            _ => ActionResView::Done,
        }
    }

    /// The bytes of the successful response to the request.
    pub open spec fn spec_ideal_response(&self, value: u32, output: Seq<u8>) -> Seq<u8> {
        let head = seq![
            ActionOp::Response.spec_code(),
            self.spec_op().spec_code(),
            ActionRc::Success.spec_code(),
        ];
        match self {
            ActionReq::CheckSum { .. } => head + u32_to_le(value as int),
            ActionReq::Execute { .. } => head + output,
            _ => head,
        }
    }

    /// The opcode of the request.
    pub fn op(&self) -> (r: ActionOp)
        ensures
            r == self.spec_op(),
    {
        match self {
            ActionReq::Create { .. } => ActionOp::Create,
            ActionReq::Delete => ActionOp::Delete,
            ActionReq::CheckSum { .. } => ActionOp::CheckSum,
            ActionReq::Execute { .. } => ActionOp::Execute,
            ActionReq::Read { .. } => ActionOp::Read,
            ActionReq::Write { .. } => ActionOp::Write,
            ActionReq::Abort => ActionOp::Abort,
        }
    }

    /// The bytes of the request.
    pub fn encode(&self) -> (r: Vec<u8>)
        ensures
            r@ == self.spec_encode(),
    {
        let mut out: Vec<u8> = Vec::with_capacity(10);
        out.push(self.op().code());
        match self {
            ActionReq::Create { size, type_ } => {
                push_u32(&mut out, *size as u64);
                out.extend_from_slice(type_.as_bytes().as_slice());
            },
            ActionReq::CheckSum { offset, length } => {
                push_u32(&mut out, *offset as u64);
                push_u32(&mut out, *length as u64);
            },
            ActionReq::Execute { param } => {
                out.extend_from_slice(param.as_slice());
            },
            ActionReq::Read { offset, length } => {
                push_u32(&mut out, *offset as u64);
                push_u32(&mut out, *length as u64);
            },
            ActionReq::Write { offset, length, mode } => {
                push_u32(&mut out, *offset as u64);
                push_u32(&mut out, *length as u64);
                out.push(mode.bits());
            },
            _ => {},
        }
        assert(out@ =~= self.spec_encode());
        out
    }

    /// The feature bit that the server must advertise for the request.
    pub fn required_feature(&self) -> (r: u32)
        ensures
            r == self.spec_required_feature(),
    {
        match self {
            ActionReq::Create { .. } => ActionFeature::CREATE,
            ActionReq::Delete => ActionFeature::DELETE,
            ActionReq::CheckSum { .. } => ActionFeature::CHECK_SUM,
            ActionReq::Execute { .. } => ActionFeature::EXECUTE,
            ActionReq::Read { .. } => ActionFeature::READ,
            ActionReq::Write { .. } => ActionFeature::WRITE,
            ActionReq::Abort => ActionFeature::ABORT,
        }
    }

    /// Whether a server with the given features takes the request.
    pub fn allowed(&self, features: &ActionFeature) -> (r: bool)
        ensures
            r == self.spec_allowed(*features),
    {
        features.contains(self.required_feature())
    }

    /// What the notified value `raw` means as the answer to the request: what it decodes
    /// to, or `BadResponse` where it is of another kind than the request asks for.
    pub open spec fn spec_accept(&self, raw: Seq<u8>) -> Result<ActionResView, Error> {
        match ActionRes::spec_decode(raw) {
            Err(e) => Err(e),
            Ok(res) => if (self is CheckSum) == (res is CheckSum) && (self is Execute) == (
            res is Execute) {
                Ok(res)
            } else {
                Err(Error::BadResponse)
            },
        }
    }

    /// Decodes the notified value `raw` as the answer to the request.
    pub fn accept(&self, raw: &[u8]) -> (r: Result<ActionRes, Error>)
        ensures
            result_view(r) == self.spec_accept(raw@),
    {
        let res: ActionRes = ActionRes::try_from(raw)?;
        let wants: u8 = match self {
            ActionReq::CheckSum { .. } => 1,
            ActionReq::Execute { .. } => 2,
            _ => 0,
        };
        let has: u8 = match &res {
            ActionRes::CheckSum { .. } => 1,
            ActionRes::Execute { .. } => 2,
            _ => 0,
        };
        if wants == has {
            Ok(res)
        } else {
            Err(Error::BadResponse)
        }
    }

    /// The bytes of the successful response to the request.
    pub fn ideal_response(&self, value: u32, output: &[u8]) -> (r: Vec<u8>)
        ensures
            r@ == self.spec_ideal_response(value, output@),
    {
        let mut out: Vec<u8> = Vec::with_capacity(7);
        out.push(ActionOp::Response.code());
        out.push(self.op().code());
        out.push(ActionRc::Success.code());
        match self {
            ActionReq::CheckSum { .. } => {
                push_u32(&mut out, value as u64);
            },
            ActionReq::Execute { .. } => {
                out.extend_from_slice(output);
            },
            _ => {},
        }
        assert(out@ =~= self.spec_ideal_response(value, output@));
        out
    }

    /// Decoding the successful response to a request gives what the request expects.
    pub proof fn lemma_ideal_response(&self, value: u32, output: Seq<u8>)
        ensures
            ActionRes::spec_decode(self.spec_ideal_response(value, output)) == Ok::<
                ActionResView,
                Error,
            >(self.spec_expected(value, output)),
            self.spec_accept(self.spec_ideal_response(value, output)) == Ok::<
                ActionResView,
                Error,
            >(self.spec_expected(value, output)),
    {
        let raw = self.spec_ideal_response(value, output);
        match self {
            ActionReq::CheckSum { .. } => {
                crate::le::lemma_u32_round_trip(value as int);
                assert(raw.subrange(3, 7) =~= u32_to_le(value as int));
            },
            ActionReq::Execute { .. } => {
                assert(raw.subrange(3, raw.len() as int) =~= output);
            },
            _ => {},
        }
    }

    /// `Create` sends its type in all sixteen bytes, and every size, offset and length
    /// takes four bytes whatever its value: a request has one length for each kind.
    pub proof fn lemma_encode_len(&self)
        ensures
            self.spec_encode()[0] == self.spec_op().spec_code(),
            self.spec_encode().len() == (match self {
                ActionReq::Create { .. } => 21nat,
                ActionReq::CheckSum { .. } => 9nat,
                ActionReq::Execute { param } => 1 + param@.len(),
                ActionReq::Read { .. } => 9nat,
                ActionReq::Write { .. } => 10nat,
                _ => 1nat,
            }),
            self matches ActionReq::Create { size, type_ } ==> self.spec_encode().subrange(5, 21)
                == type_@ && self.spec_encode().subrange(1, 5) == u32_to_le(size as int),
            self matches ActionReq::CheckSum { offset, length } ==> self.spec_encode().subrange(
                1,
                5,
            ) == u32_to_le(offset as int) && self.spec_encode().subrange(5, 9) == u32_to_le(
                length as int,
            ),
            self matches ActionReq::Read { offset, length } ==> self.spec_encode().subrange(1, 5)
                == u32_to_le(offset as int) && self.spec_encode().subrange(5, 9) == u32_to_le(
                length as int,
            ),
            self matches ActionReq::Write { offset, length, mode } ==> self.spec_encode().subrange(
                1,
                5,
            ) == u32_to_le(offset as int) && self.spec_encode().subrange(5, 9) == u32_to_le(
                length as int,
            ) && self.spec_encode()[9] == mode.bits,
    {
        let raw = self.spec_encode();
        match self {
            ActionReq::Create { size, type_ } => {
                assert(raw.subrange(5, 21) =~= type_@);
                assert(raw.subrange(1, 5) =~= u32_to_le(*size as int));
            },
            ActionReq::CheckSum { offset, length } => {
                assert(raw.subrange(1, 5) =~= u32_to_le(*offset as int));
                assert(raw.subrange(5, 9) =~= u32_to_le(*length as int));
            },
            ActionReq::Read { offset, length } => {
                assert(raw.subrange(1, 5) =~= u32_to_le(*offset as int));
                assert(raw.subrange(5, 9) =~= u32_to_le(*length as int));
            },
            ActionReq::Write { offset, length, mode } => {
                assert(raw.subrange(1, 5) =~= u32_to_le(*offset as int));
                assert(raw.subrange(5, 9) =~= u32_to_le(*length as int));
            },
            _ => {},
        }
    }
}

impl ActionRes {
    /// What a notified value decodes to.
    ///
    /// Fewer than three bytes are `NotEnoughData`.  A first byte other than the response
    /// marker is `BadResponse`.  A third byte that is no result code is `BadOpCode`; one
    /// that is a failure is `ActionError` with the code.  On success the second byte must
    /// be an opcode; for `CheckSum` four more bytes hold the checksum, and for `Execute`
    /// all that follows is what the execution returned.
    pub open spec fn spec_decode(raw: Seq<u8>) -> Result<ActionResView, Error> {
        if raw.len() < 3 {
            Err(Error::NotEnoughData { actual: raw.len() as usize, needed: 3 })
        } else if raw[0] != ActionOp::Response.spec_code() {
            Err(Error::BadResponse)
        } else {
            match ActionRc::spec_from_code(raw[2]) {
                None => Err(Error::BadOpCode { type_: OpType::ActionRc, code: raw[2] }),
                Some(ActionRc::Success) => match ActionOp::spec_from_code(raw[1]) {
                    None => Err(Error::BadOpCode { type_: OpType::ActionOp, code: raw[1] }),
                    Some(ActionOp::CheckSum) => if raw.len() < 7 {
                        Err(Error::NotEnoughData { actual: raw.len() as usize, needed: 7 })
                    } else {
                        Ok(
                            ActionResView::CheckSum {
                                value: u32_from_le(raw.subrange(3, 7)) as u32,
                            },
                        )
                    },
                    Some(ActionOp::Execute) => Ok(
                        ActionResView::Execute { param: raw.subrange(3, raw.len() as int) },
                    ),
                    Some(_) => Ok(ActionResView::Done),
                },
                Some(rc) => Err(Error::ActionError(rc)),
            }
        }
    }

    /// Decodes a notified value.
    pub fn try_from(raw: &[u8]) -> (r: Result<Self, Error>)
        ensures
            result_view(r) == Self::spec_decode(raw@),
    {
        if raw.len() < 3 {
            return Err(Error::NotEnoughData { actual: raw.len(), needed: 3 });
        }
        if raw[0] != ActionOp::Response.code() {
            return Err(Error::BadResponse);
        }
        let rc: ActionRc = match ActionRc::try_from(raw[2]) {
            Ok(rc) => rc,
            Err(e) => {
                return Err(e);
            },
        };
        match rc {
            ActionRc::Success => {
                let op: ActionOp = match ActionOp::try_from(raw[1]) {
                    Ok(op) => op,
                    Err(e) => {
                        return Err(e);
                    },
                };
                match op {
                    ActionOp::CheckSum => {
                        if raw.len() < 7 {
                            return Err(Error::NotEnoughData { actual: raw.len(), needed: 7 });
                        }
                        Ok(ActionRes::CheckSum { value: read_u32(raw, 3) })
                    },
                    ActionOp::Execute => Ok(
                        ActionRes::Execute {
                            param: slice_to_vec(slice_subrange(raw, 3, raw.len())),
                        },
                    ),
                    _ => Ok(ActionRes::Done),
                }
            },
            _ => Err(Error::ActionError(rc)),
        }
    }
}

impl ActionResView {
    /// The least number of bytes of a response that holds this.
    pub open spec fn spec_min_wire_length(self) -> nat {
        match self {
            ActionResView::Done => 3,
            ActionResView::CheckSum { .. } => 7,
            ActionResView::Execute { param } => 3 + param.len(),
        }
    }

    /// A value that decodes is no shorter than what it decodes to needs, which is three
    /// bytes at the least; a value of fewer than three bytes is `NotEnoughData`.
    pub proof fn lemma_min_wire_length(raw: Seq<u8>)
        ensures
            ActionRes::spec_decode(raw) matches Ok(res) ==> 3 <= res.spec_min_wire_length()
                <= raw.len(),
            raw.len() < 3 ==> ActionRes::spec_decode(raw) == Err::<ActionResView, Error>(
                Error::NotEnoughData { actual: raw.len() as usize, needed: 3 },
            ),
    {
    }

    /// A value decodes to the same as its first bytes, as many as what it decodes to
    /// needs: what follows them is not read.
    pub proof fn lemma_consumes(raw: Seq<u8>)
        requires
            raw.len() <= usize::MAX,
        ensures
            ActionRes::spec_decode(raw) matches Ok(res) ==> ActionRes::spec_decode(
                raw.subrange(0, res.spec_min_wire_length() as int),
            ) == Ok::<ActionResView, Error>(res),
    {
        match ActionRes::spec_decode(raw) {
            Ok(res) => {
                let short = raw.subrange(0, res.spec_min_wire_length() as int);
                if res is CheckSum {
                    assert(short.subrange(3, 7) =~= raw.subrange(3, 7));
                }
                if res is Execute {
                    assert(short =~= raw);
                }
            },
            _ => {},
        }
    }

    /// A failure code in a response is the error of the response, whatever else it holds.
    pub proof fn lemma_failure_is_error(raw: Seq<u8>, rc: ActionRc)
        requires
            raw.len() >= 3,
            raw[0] == ActionOp::Response.spec_code(),
            raw[2] == rc.spec_code(),
            rc != ActionRc::Success,
        ensures
            ActionRes::spec_decode(raw) == Err::<ActionResView, Error>(Error::ActionError(rc)),
    {
        rc.lemma_code_round_trip();
    }
}

impl<'a> From<&'a ListReq> for Vec<u8> {
    /// The bytes of the request.
    fn from(op: &'a ListReq) -> (out: Self)
        ensures
            out@ == op.spec_encode(),
    {
        op.encode()
    }
}

/// A `Vec` cannot be written down in a specification: what `from` returns is stated on
/// `from` itself, over the view of the result.
impl<'a> FromSpecImpl<&'a ListReq> for Vec<u8> {
    open spec fn obeys_from_spec() -> bool {
        false
    }

    open spec fn from_spec(op: &'a ListReq) -> Self {
        arbitrary()
    }
}

impl<'a> From<&'a ActionReq> for Vec<u8> {
    /// The bytes of the request.
    fn from(op: &'a ActionReq) -> (out: Self)
        ensures
            out@ == op.spec_encode(),
            op matches ActionReq::Create { size, type_ } ==> (out@.len() == 21 && out@[0] == 0x01
                && out@.subrange(1, 5) == u32_to_le(size as int) && out@.subrange(5, 21)
                == type_@),
    {
        proof {
            op.lemma_encode_len();
        }
        op.encode()
    }
}

/// A `Vec` cannot be written down in a specification: what `from` returns is stated on
/// `from` itself, over the view of the result.
impl<'a> FromSpecImpl<&'a ActionReq> for Vec<u8> {
    open spec fn obeys_from_spec() -> bool {
        false
    }

    open spec fn from_spec(op: &'a ActionReq) -> Self {
        arbitrary()
    }
}

} // verus!
