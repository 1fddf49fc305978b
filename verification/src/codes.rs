//! The one-byte codes of the two control points: operations, results and sort orders.
//!
//! Each family is an enum with its wire code given by `spec_code`; `spec_from_code` is
//! the inverse, and the two lemmas beside each family say so.

use vstd::prelude::*;

use crate::error::{Error, OpType};

verus! {

/// The order in which the server lists its objects.
#[derive(Debug, Clone, Copy, PartialEq, Eq, PartialOrd, Ord, Hash, Structural)]
pub enum SortOrder {
    /// By name, ascending.
    NameAsc,
    /// By type, ascending.
    TypeAsc,
    /// By current size, ascending.
    CurSizeAsc,
    /// By creation time, ascending.
    CrtTimeAsc,
    /// By modification time, ascending.
    ModTimeAsc,
    /// By name, descending.
    NameDesc,
    /// By type, descending.
    TypeDesc,
    /// By current size, descending.
    CurSizeDesc,
    /// By creation time, descending.
    CrtTimeDesc,
    /// By modification time, descending.
    ModTimeDesc,
}

impl SortOrder {
    /// The byte that stands for the value on the wire.
    pub open spec fn spec_code(self) -> u8 {
        match self {
            SortOrder::NameAsc => 0x01,
            SortOrder::TypeAsc => 0x02,
            SortOrder::CurSizeAsc => 0x03,
            SortOrder::CrtTimeAsc => 0x04,
            SortOrder::ModTimeAsc => 0x05,
            SortOrder::NameDesc => 0x11,
            SortOrder::TypeDesc => 0x12,
            SortOrder::CurSizeDesc => 0x13,
            SortOrder::CrtTimeDesc => 0x14,
            SortOrder::ModTimeDesc => 0x15,
        }
    }

    /// The value a byte stands for, if any.
    pub open spec fn spec_from_code(raw: u8) -> Option<Self> {
        if raw == 0x01 {
            Some(SortOrder::NameAsc)
        } else if raw == 0x02 {
            Some(SortOrder::TypeAsc)
        } else if raw == 0x03 {
            Some(SortOrder::CurSizeAsc)
        } else if raw == 0x04 {
            Some(SortOrder::CrtTimeAsc)
        } else if raw == 0x05 {
            Some(SortOrder::ModTimeAsc)
        } else if raw == 0x11 {
            Some(SortOrder::NameDesc)
        } else if raw == 0x12 {
            Some(SortOrder::TypeDesc)
        } else if raw == 0x13 {
            Some(SortOrder::CurSizeDesc)
        } else if raw == 0x14 {
            Some(SortOrder::CrtTimeDesc)
        } else if raw == 0x15 {
            Some(SortOrder::ModTimeDesc)
        } else {
            None
        }
    }

    /// The name of the value.
    pub open spec fn spec_name(self) -> Seq<char> {
        match self {
            SortOrder::NameAsc => "NameAsc"@,
            SortOrder::TypeAsc => "TypeAsc"@,
            SortOrder::CurSizeAsc => "CurSizeAsc"@,
            SortOrder::CrtTimeAsc => "CrtTimeAsc"@,
            SortOrder::ModTimeAsc => "ModTimeAsc"@,
            SortOrder::NameDesc => "NameDesc"@,
            SortOrder::TypeDesc => "TypeDesc"@,
            SortOrder::CurSizeDesc => "CurSizeDesc"@,
            SortOrder::CrtTimeDesc => "CrtTimeDesc"@,
            SortOrder::ModTimeDesc => "ModTimeDesc"@,
        }
    }

    /// The byte that stands for the value on the wire.
    pub fn code(&self) -> (r: u8)
        ensures
            r == self.spec_code(),
    {
        match self {
            SortOrder::NameAsc => 0x01,
            SortOrder::TypeAsc => 0x02,
            SortOrder::CurSizeAsc => 0x03,
            SortOrder::CrtTimeAsc => 0x04,
            SortOrder::ModTimeAsc => 0x05,
            SortOrder::NameDesc => 0x11,
            SortOrder::TypeDesc => 0x12,
            SortOrder::CurSizeDesc => 0x13,
            SortOrder::CrtTimeDesc => 0x14,
            SortOrder::ModTimeDesc => 0x15,
        }
    }

    /// Decodes one byte; a byte outside the family is `BadOpCode` with the byte in it.
    pub fn try_from(raw: u8) -> (r: Result<Self, Error>)
        ensures
            r == (match Self::spec_from_code(raw) {
                Some(v) => Ok::<Self, Error>(v),
                None => Err(Error::BadOpCode { type_: OpType::SortOrder, code: raw }),
            }),
    {
        match raw {
            0x01 => Ok(SortOrder::NameAsc),
            0x02 => Ok(SortOrder::TypeAsc),
            0x03 => Ok(SortOrder::CurSizeAsc),
            0x04 => Ok(SortOrder::CrtTimeAsc),
            0x05 => Ok(SortOrder::ModTimeAsc),
            0x11 => Ok(SortOrder::NameDesc),
            0x12 => Ok(SortOrder::TypeDesc),
            0x13 => Ok(SortOrder::CurSizeDesc),
            0x14 => Ok(SortOrder::CrtTimeDesc),
            0x15 => Ok(SortOrder::ModTimeDesc),
            _ => Err(Error::BadOpCode { type_: OpType::SortOrder, code: raw }),
        }
    }

    /// The name of the value.
    pub fn name(&self) -> (r: &'static str)
        ensures
            r@ == self.spec_name(),
    {
        match self {
            SortOrder::NameAsc => "NameAsc",
            SortOrder::TypeAsc => "TypeAsc",
            SortOrder::CurSizeAsc => "CurSizeAsc",
            SortOrder::CrtTimeAsc => "CrtTimeAsc",
            SortOrder::ModTimeAsc => "ModTimeAsc",
            SortOrder::NameDesc => "NameDesc",
            SortOrder::TypeDesc => "TypeDesc",
            SortOrder::CurSizeDesc => "CurSizeDesc",
            SortOrder::CrtTimeDesc => "CrtTimeDesc",
            SortOrder::ModTimeDesc => "ModTimeDesc",
        }
    }

    /// Decoding the code of a value gives the value back.
    pub proof fn lemma_code_round_trip(self)
        ensures
            Self::spec_from_code(self.spec_code()) == Some(self),
    {
    }

    /// A byte that decodes is the code of what it decodes to.
    pub proof fn lemma_from_code_sound(raw: u8)
        ensures
            Self::spec_from_code(raw) matches Some(v) ==> v.spec_code() == raw,
    {
    }
}

/// An operation code of the object list control point.
#[derive(Debug, Clone, Copy, PartialEq, Eq, PartialOrd, Ord, Hash, Structural)]
pub enum ListOp {
    /// Select the first object.
    First,
    /// Select the last object.
    Last,
    /// Select the previous object.
    Previous,
    /// Select the next object.
    Next,
    /// Select the object with a given identifier.
    GoTo,
    /// Change the list order.
    Order,
    /// Count the objects.
    NumberOf,
    /// Clear the marks of all objects.
    ClearMark,
    /// The marker that opens every response.
    Response,
}

impl ListOp {
    /// The byte that stands for the value on the wire.
    pub open spec fn spec_code(self) -> u8 {
        match self {
            ListOp::First => 0x01,
            ListOp::Last => 0x02,
            ListOp::Previous => 0x03,
            ListOp::Next => 0x04,
            ListOp::GoTo => 0x05,
            ListOp::Order => 0x06,
            ListOp::NumberOf => 0x07,
            ListOp::ClearMark => 0x08,
            ListOp::Response => 0x70,
        }
    }

    /// The value a byte stands for, if any.
    pub open spec fn spec_from_code(raw: u8) -> Option<Self> {
        if raw == 0x01 {
            Some(ListOp::First)
        } else if raw == 0x02 {
            Some(ListOp::Last)
        } else if raw == 0x03 {
            Some(ListOp::Previous)
        } else if raw == 0x04 {
            Some(ListOp::Next)
        } else if raw == 0x05 {
            Some(ListOp::GoTo)
        } else if raw == 0x06 {
            Some(ListOp::Order)
        } else if raw == 0x07 {
            Some(ListOp::NumberOf)
        } else if raw == 0x08 {
            Some(ListOp::ClearMark)
        } else if raw == 0x70 {
            Some(ListOp::Response)
        } else {
            None
        }
    }

    /// The name of the value.
    pub open spec fn spec_name(self) -> Seq<char> {
        match self {
            ListOp::First => "First"@,
            ListOp::Last => "Last"@,
            ListOp::Previous => "Previous"@,
            ListOp::Next => "Next"@,
            ListOp::GoTo => "GoTo"@,
            ListOp::Order => "Order"@,
            ListOp::NumberOf => "NumberOf"@,
            ListOp::ClearMark => "ClearMark"@,
            ListOp::Response => "Response"@,
        }
    }

    /// The byte that stands for the value on the wire.
    pub fn code(&self) -> (r: u8)
        ensures
            r == self.spec_code(),
    {
        match self {
            ListOp::First => 0x01,
            ListOp::Last => 0x02,
            ListOp::Previous => 0x03,
            ListOp::Next => 0x04,
            ListOp::GoTo => 0x05,
            ListOp::Order => 0x06,
            ListOp::NumberOf => 0x07,
            ListOp::ClearMark => 0x08,
            ListOp::Response => 0x70,
        }
    }

    /// Decodes one byte; a byte outside the family is `BadOpCode` with the byte in it.
    pub fn try_from(raw: u8) -> (r: Result<Self, Error>)
        ensures
            r == (match Self::spec_from_code(raw) {
                Some(v) => Ok::<Self, Error>(v),
                None => Err(Error::BadOpCode { type_: OpType::ListOp, code: raw }),
            }),
    {
        match raw {
            0x01 => Ok(ListOp::First),
            0x02 => Ok(ListOp::Last),
            0x03 => Ok(ListOp::Previous),
            0x04 => Ok(ListOp::Next),
            0x05 => Ok(ListOp::GoTo),
            0x06 => Ok(ListOp::Order),
            0x07 => Ok(ListOp::NumberOf),
            0x08 => Ok(ListOp::ClearMark),
            0x70 => Ok(ListOp::Response),
            _ => Err(Error::BadOpCode { type_: OpType::ListOp, code: raw }),
        }
    }

    /// The name of the value.
    pub fn name(&self) -> (r: &'static str)
        ensures
            r@ == self.spec_name(),
    {
        match self {
            ListOp::First => "First",
            ListOp::Last => "Last",
            ListOp::Previous => "Previous",
            ListOp::Next => "Next",
            ListOp::GoTo => "GoTo",
            ListOp::Order => "Order",
            ListOp::NumberOf => "NumberOf",
            ListOp::ClearMark => "ClearMark",
            ListOp::Response => "Response",
        }
    }

    /// Decoding the code of a value gives the value back.
    pub proof fn lemma_code_round_trip(self)
        ensures
            Self::spec_from_code(self.spec_code()) == Some(self),
    {
    }

    /// A byte that decodes is the code of what it decodes to.
    pub proof fn lemma_from_code_sound(raw: u8)
        ensures
            Self::spec_from_code(raw) matches Some(v) ==> v.spec_code() == raw,
    {
    }
}

/// A result code of the object list control point.
#[derive(Debug, Clone, Copy, PartialEq, Eq, PartialOrd, Ord, Hash, Structural)]
pub enum ListRc {
    /// The operation succeeded.
    Success,
    /// The server does not know the operation.
    OperationNotSupported,
    /// A parameter was refused.
    InvalidParameter,
    /// The operation failed.
    OperationFailed,
    /// The selection would leave the list.
    OutOfBounds,
    /// The count does not fit.
    TooManyObjects,
    /// The list is empty.
    NoObject,
    /// No object has the identifier asked for.
    ObjectIdNotFound,
}

impl ListRc {
    /// The byte that stands for the value on the wire.
    pub open spec fn spec_code(self) -> u8 {
        match self {
            ListRc::Success => 0x01,
            ListRc::OperationNotSupported => 0x02,
            ListRc::InvalidParameter => 0x03,
            ListRc::OperationFailed => 0x04,
            ListRc::OutOfBounds => 0x05,
            ListRc::TooManyObjects => 0x06,
            ListRc::NoObject => 0x07,
            ListRc::ObjectIdNotFound => 0x08,
        }
    }

    /// The value a byte stands for, if any.
    pub open spec fn spec_from_code(raw: u8) -> Option<Self> {
        if raw == 0x01 {
            Some(ListRc::Success)
        } else if raw == 0x02 {
            Some(ListRc::OperationNotSupported)
        } else if raw == 0x03 {
            Some(ListRc::InvalidParameter)
        } else if raw == 0x04 {
            Some(ListRc::OperationFailed)
        } else if raw == 0x05 {
            Some(ListRc::OutOfBounds)
        } else if raw == 0x06 {
            Some(ListRc::TooManyObjects)
        } else if raw == 0x07 {
            Some(ListRc::NoObject)
        } else if raw == 0x08 {
            Some(ListRc::ObjectIdNotFound)
        } else {
            None
        }
    }

    /// The name of the value.
    pub open spec fn spec_name(self) -> Seq<char> {
        match self {
            ListRc::Success => "Success"@,
            ListRc::OperationNotSupported => "OperationNotSupported"@,
            ListRc::InvalidParameter => "InvalidParameter"@,
            ListRc::OperationFailed => "OperationFailed"@,
            ListRc::OutOfBounds => "OutOfBounds"@,
            ListRc::TooManyObjects => "TooManyObjects"@,
            ListRc::NoObject => "NoObject"@,
            ListRc::ObjectIdNotFound => "ObjectIdNotFound"@,
        }
    }

    /// The byte that stands for the value on the wire.
    pub fn code(&self) -> (r: u8)
        ensures
            r == self.spec_code(),
    {
        match self {
            ListRc::Success => 0x01,
            ListRc::OperationNotSupported => 0x02,
            ListRc::InvalidParameter => 0x03,
            ListRc::OperationFailed => 0x04,
            ListRc::OutOfBounds => 0x05,
            ListRc::TooManyObjects => 0x06,
            ListRc::NoObject => 0x07,
            ListRc::ObjectIdNotFound => 0x08,
        }
    }

    /// Decodes one byte; a byte outside the family is `BadOpCode` with the byte in it.
    pub fn try_from(raw: u8) -> (r: Result<Self, Error>)
        ensures
            r == (match Self::spec_from_code(raw) {
                Some(v) => Ok::<Self, Error>(v),
                None => Err(Error::BadOpCode { type_: OpType::ListRc, code: raw }),
            }),
    {
        match raw {
            0x01 => Ok(ListRc::Success),
            0x02 => Ok(ListRc::OperationNotSupported),
            0x03 => Ok(ListRc::InvalidParameter),
            0x04 => Ok(ListRc::OperationFailed),
            0x05 => Ok(ListRc::OutOfBounds),
            0x06 => Ok(ListRc::TooManyObjects),
            0x07 => Ok(ListRc::NoObject),
            0x08 => Ok(ListRc::ObjectIdNotFound),
            _ => Err(Error::BadOpCode { type_: OpType::ListRc, code: raw }),
        }
    }

    /// The name of the value.
    pub fn name(&self) -> (r: &'static str)
        ensures
            r@ == self.spec_name(),
    {
        match self {
            ListRc::Success => "Success",
            ListRc::OperationNotSupported => "OperationNotSupported",
            ListRc::InvalidParameter => "InvalidParameter",
            ListRc::OperationFailed => "OperationFailed",
            ListRc::OutOfBounds => "OutOfBounds",
            ListRc::TooManyObjects => "TooManyObjects",
            ListRc::NoObject => "NoObject",
            ListRc::ObjectIdNotFound => "ObjectIdNotFound",
        }
    }

    /// Decoding the code of a value gives the value back.
    pub proof fn lemma_code_round_trip(self)
        ensures
            Self::spec_from_code(self.spec_code()) == Some(self),
    {
    }

    /// A byte that decodes is the code of what it decodes to.
    pub proof fn lemma_from_code_sound(raw: u8)
        ensures
            Self::spec_from_code(raw) matches Some(v) ==> v.spec_code() == raw,
    {
    }
}

/// An operation code of the object action control point.
#[derive(Debug, Clone, Copy, PartialEq, Eq, PartialOrd, Ord, Hash, Structural)]
pub enum ActionOp {
    /// Create an object.
    Create,
    /// Delete the selected object.
    Delete,
    /// Compute a checksum over a part of the selected object.
    CheckSum,
    /// Execute the selected object.
    Execute,
    /// Read a part of the selected object.
    Read,
    /// Write a part of the selected object.
    Write,
    /// Abort the read in progress.
    Abort,
    /// The marker that opens every response.
    Response,
}

impl ActionOp {
    /// The byte that stands for the value on the wire.
    pub open spec fn spec_code(self) -> u8 {
        match self {
            ActionOp::Create => 0x01,
            ActionOp::Delete => 0x02,
            ActionOp::CheckSum => 0x03,
            ActionOp::Execute => 0x04,
            ActionOp::Read => 0x05,
            ActionOp::Write => 0x06,
            ActionOp::Abort => 0x07,
            ActionOp::Response => 0x60,
        }
    }

    /// The value a byte stands for, if any.
    pub open spec fn spec_from_code(raw: u8) -> Option<Self> {
        if raw == 0x01 {
            Some(ActionOp::Create)
        } else if raw == 0x02 {
            Some(ActionOp::Delete)
        } else if raw == 0x03 {
            Some(ActionOp::CheckSum)
        } else if raw == 0x04 {
            Some(ActionOp::Execute)
        } else if raw == 0x05 {
            Some(ActionOp::Read)
        } else if raw == 0x06 {
            Some(ActionOp::Write)
        } else if raw == 0x07 {
            Some(ActionOp::Abort)
        } else if raw == 0x60 {
            Some(ActionOp::Response)
        } else {
            None
        }
    }

    /// The name of the value.
    pub open spec fn spec_name(self) -> Seq<char> {
        match self {
            ActionOp::Create => "Create"@,
            ActionOp::Delete => "Delete"@,
            ActionOp::CheckSum => "CheckSum"@,
            ActionOp::Execute => "Execute"@,
            ActionOp::Read => "Read"@,
            ActionOp::Write => "Write"@,
            ActionOp::Abort => "Abort"@,
            ActionOp::Response => "Response"@,
        }
    }

    /// The byte that stands for the value on the wire.
    pub fn code(&self) -> (r: u8)
        ensures
            r == self.spec_code(),
    {
        match self {
            ActionOp::Create => 0x01,
            ActionOp::Delete => 0x02,
            ActionOp::CheckSum => 0x03,
            ActionOp::Execute => 0x04,
            ActionOp::Read => 0x05,
            ActionOp::Write => 0x06,
            ActionOp::Abort => 0x07,
            ActionOp::Response => 0x60,
        }
    }

    /// Decodes one byte; a byte outside the family is `BadOpCode` with the byte in it.
    pub fn try_from(raw: u8) -> (r: Result<Self, Error>)
        ensures
            r == (match Self::spec_from_code(raw) {
                Some(v) => Ok::<Self, Error>(v),
                None => Err(Error::BadOpCode { type_: OpType::ActionOp, code: raw }),
            }),
    {
        match raw {
            0x01 => Ok(ActionOp::Create),
            0x02 => Ok(ActionOp::Delete),
            0x03 => Ok(ActionOp::CheckSum),
            0x04 => Ok(ActionOp::Execute),
            0x05 => Ok(ActionOp::Read),
            0x06 => Ok(ActionOp::Write),
            0x07 => Ok(ActionOp::Abort),
            0x60 => Ok(ActionOp::Response),
            _ => Err(Error::BadOpCode { type_: OpType::ActionOp, code: raw }),
        }
    }

    /// The name of the value.
    pub fn name(&self) -> (r: &'static str)
        ensures
            r@ == self.spec_name(),
    {
        match self {
            ActionOp::Create => "Create",
            ActionOp::Delete => "Delete",
            ActionOp::CheckSum => "CheckSum",
            ActionOp::Execute => "Execute",
            ActionOp::Read => "Read",
            ActionOp::Write => "Write",
            ActionOp::Abort => "Abort",
            ActionOp::Response => "Response",
        }
    }

    /// Decoding the code of a value gives the value back.
    pub proof fn lemma_code_round_trip(self)
        ensures
            Self::spec_from_code(self.spec_code()) == Some(self),
    {
    }

    /// A byte that decodes is the code of what it decodes to.
    pub proof fn lemma_from_code_sound(raw: u8)
        ensures
            Self::spec_from_code(raw) matches Some(v) ==> v.spec_code() == raw,
    {
    }
}

/// A result code of the object action control point.
#[derive(Debug, Clone, Copy, PartialEq, Eq, PartialOrd, Ord, Hash, Structural)]
pub enum ActionRc {
    /// The operation succeeded.
    Success,
    /// The server does not know the operation.
    OperationNotSupported,
    /// A parameter was refused.
    InvalidParameter,
    /// The server lacks the resources.
    InsufficientResources,
    /// The selected object is not valid.
    InvalidObject,
    /// The data channel is not open.
    ChannelUnavailable,
    /// The object type is not supported.
    UnsupportedType,
    /// The object's properties forbid the operation.
    ProcedureNotPermitted,
    /// The object is locked.
    ObjectLocked,
    /// The operation failed.
    OperationFailed,
}

impl ActionRc {
    /// The byte that stands for the value on the wire.
    pub open spec fn spec_code(self) -> u8 {
        match self {
            ActionRc::Success => 0x01,
            ActionRc::OperationNotSupported => 0x02,
            ActionRc::InvalidParameter => 0x03,
            ActionRc::InsufficientResources => 0x04,
            ActionRc::InvalidObject => 0x05,
            ActionRc::ChannelUnavailable => 0x06,
            ActionRc::UnsupportedType => 0x07,
            ActionRc::ProcedureNotPermitted => 0x08,
            ActionRc::ObjectLocked => 0x09,
            ActionRc::OperationFailed => 0x0a,
        }
    }

    /// The value a byte stands for, if any.
    pub open spec fn spec_from_code(raw: u8) -> Option<Self> {
        if raw == 0x01 {
            Some(ActionRc::Success)
        } else if raw == 0x02 {
            Some(ActionRc::OperationNotSupported)
        } else if raw == 0x03 {
            Some(ActionRc::InvalidParameter)
        } else if raw == 0x04 {
            Some(ActionRc::InsufficientResources)
        } else if raw == 0x05 {
            Some(ActionRc::InvalidObject)
        } else if raw == 0x06 {
            Some(ActionRc::ChannelUnavailable)
        } else if raw == 0x07 {
            Some(ActionRc::UnsupportedType)
        } else if raw == 0x08 {
            Some(ActionRc::ProcedureNotPermitted)
        } else if raw == 0x09 {
            Some(ActionRc::ObjectLocked)
        } else if raw == 0x0a {
            Some(ActionRc::OperationFailed)
        } else {
            None
        }
    }

    /// The name of the value.
    pub open spec fn spec_name(self) -> Seq<char> {
        match self {
            ActionRc::Success => "Success"@,
            ActionRc::OperationNotSupported => "OperationNotSupported"@,
            ActionRc::InvalidParameter => "InvalidParameter"@,
            ActionRc::InsufficientResources => "InsufficientResources"@,
            ActionRc::InvalidObject => "InvalidObject"@,
            ActionRc::ChannelUnavailable => "ChannelUnavailable"@,
            ActionRc::UnsupportedType => "UnsupportedType"@,
            ActionRc::ProcedureNotPermitted => "ProcedureNotPermitted"@,
            ActionRc::ObjectLocked => "ObjectLocked"@,
            ActionRc::OperationFailed => "OperationFailed"@,
        }
    }

    /// The byte that stands for the value on the wire.
    pub fn code(&self) -> (r: u8)
        ensures
            r == self.spec_code(),
    {
        match self {
            ActionRc::Success => 0x01,
            ActionRc::OperationNotSupported => 0x02,
            ActionRc::InvalidParameter => 0x03,
            ActionRc::InsufficientResources => 0x04,
            ActionRc::InvalidObject => 0x05,
            ActionRc::ChannelUnavailable => 0x06,
            ActionRc::UnsupportedType => 0x07,
            ActionRc::ProcedureNotPermitted => 0x08,
            ActionRc::ObjectLocked => 0x09,
            ActionRc::OperationFailed => 0x0a,
        }
    }

    /// Decodes one byte; a byte outside the family is `BadOpCode` with the byte in it.
    pub fn try_from(raw: u8) -> (r: Result<Self, Error>)
        ensures
            r == (match Self::spec_from_code(raw) {
                Some(v) => Ok::<Self, Error>(v),
                None => Err(Error::BadOpCode { type_: OpType::ActionRc, code: raw }),
            }),
    {
        match raw {
            0x01 => Ok(ActionRc::Success),
            0x02 => Ok(ActionRc::OperationNotSupported),
            0x03 => Ok(ActionRc::InvalidParameter),
            0x04 => Ok(ActionRc::InsufficientResources),
            0x05 => Ok(ActionRc::InvalidObject),
            0x06 => Ok(ActionRc::ChannelUnavailable),
            0x07 => Ok(ActionRc::UnsupportedType),
            0x08 => Ok(ActionRc::ProcedureNotPermitted),
            0x09 => Ok(ActionRc::ObjectLocked),
            0x0a => Ok(ActionRc::OperationFailed),
            _ => Err(Error::BadOpCode { type_: OpType::ActionRc, code: raw }),
        }
    }

    /// The name of the value.
    pub fn name(&self) -> (r: &'static str)
        ensures
            r@ == self.spec_name(),
    {
        match self {
            ActionRc::Success => "Success",
            ActionRc::OperationNotSupported => "OperationNotSupported",
            ActionRc::InvalidParameter => "InvalidParameter",
            ActionRc::InsufficientResources => "InsufficientResources",
            ActionRc::InvalidObject => "InvalidObject",
            ActionRc::ChannelUnavailable => "ChannelUnavailable",
            ActionRc::UnsupportedType => "UnsupportedType",
            ActionRc::ProcedureNotPermitted => "ProcedureNotPermitted",
            ActionRc::ObjectLocked => "ObjectLocked",
            ActionRc::OperationFailed => "OperationFailed",
        }
    }

    /// Decoding the code of a value gives the value back.
    pub proof fn lemma_code_round_trip(self)
        ensures
            Self::spec_from_code(self.spec_code()) == Some(self),
    {
    }

    /// A byte that decodes is the code of what it decodes to.
    pub proof fn lemma_from_code_sound(raw: u8)
        ensures
            Self::spec_from_code(raw) matches Some(v) ==> v.spec_code() == raw,
    {
    }
}

} // verus!
