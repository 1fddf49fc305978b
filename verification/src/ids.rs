//! The assigned numbers of the service and its characteristics.
//!
//! Each is a 16-bit number that stands for a full UUID on the Bluetooth base.

use vstd::prelude::*;

use crate::types::{spec_uuid_from_u32, uuid_from_u16, Uuid};

verus! {

/// The Object Transfer service.
pub const OBJECT_TRANSFER: u16 = 0x1825;

/// OTS Feature.
pub const OTS_FEATURE: u16 = 0x2ABD;

/// Object Name.
pub const OBJECT_NAME: u16 = 0x2ABE;

/// Object Type.
pub const OBJECT_TYPE: u16 = 0x2ABF;

/// Object Size.
pub const OBJECT_SIZE: u16 = 0x2AC0;

/// Object First-Created.
pub const OBJECT_FIRST_CREATED: u16 = 0x2AC1;

/// Object Last-Modified.
pub const OBJECT_LAST_MODIFIED: u16 = 0x2AC2;

/// Object ID.
pub const OBJECT_ID: u16 = 0x2AC3;

/// Object Properties.
pub const OBJECT_PROPERTIES: u16 = 0x2AC4;

/// Object Action Control Point.
pub const OBJECT_ACTION_CONTROL_POINT: u16 = 0x2AC5;

/// Object List Control Point.
pub const OBJECT_LIST_CONTROL_POINT: u16 = 0x2AC6;

/// Object List Filter.
pub const OBJECT_LIST_FILTER: u16 = 0x2AC7;

/// Object Changed.
pub const OBJECT_CHANGED: u16 = 0x2AC8;

/// A characteristic of the service that the client reads or writes.
#[derive(Debug, Clone, Copy, PartialEq, Eq, PartialOrd, Ord, Hash, Structural)]
pub enum Characteristic {
    /// The features of the server.
    Feature,
    /// The name of the selected object.
    Name,
    /// The type of the selected object.
    Type,
    /// The sizes of the selected object.
    Size,
    /// When the selected object was created.
    FirstCreated,
    /// When the selected object was last changed.
    LastModified,
    /// The identifier of the selected object.
    Id,
    /// The properties of the selected object.
    Properties,
    /// The object action control point.
    ActionControl,
    /// The object list control point.
    ListControl,
}

impl Characteristic {
    /// The assigned number of the characteristic.
    pub open spec fn spec_uuid16(self) -> u16 {
        match self {
            Characteristic::Feature => OTS_FEATURE,
            Characteristic::Name => OBJECT_NAME,
            Characteristic::Type => OBJECT_TYPE,
            Characteristic::Size => OBJECT_SIZE,
            Characteristic::FirstCreated => OBJECT_FIRST_CREATED,
            Characteristic::LastModified => OBJECT_LAST_MODIFIED,
            Characteristic::Id => OBJECT_ID,
            Characteristic::Properties => OBJECT_PROPERTIES,
            Characteristic::ActionControl => OBJECT_ACTION_CONTROL_POINT,
            Characteristic::ListControl => OBJECT_LIST_CONTROL_POINT,
        }
    }

    /// Whether every server must expose the characteristic.  The list control point,
    /// the identifier and the two times are optional.
    pub open spec fn spec_is_mandatory(self) -> bool {
        match self {
            Characteristic::ListControl => false,
            Characteristic::Id => false,
            Characteristic::FirstCreated => false,
            Characteristic::LastModified => false,
            _ => true,
        }
    }

    /// The assigned number of the characteristic.
    pub fn uuid16(&self) -> (r: u16)
        ensures
            r == self.spec_uuid16(),
    {
        match self {
            Characteristic::Feature => OTS_FEATURE,
            Characteristic::Name => OBJECT_NAME,
            Characteristic::Type => OBJECT_TYPE,
            Characteristic::Size => OBJECT_SIZE,
            Characteristic::FirstCreated => OBJECT_FIRST_CREATED,
            Characteristic::LastModified => OBJECT_LAST_MODIFIED,
            Characteristic::Id => OBJECT_ID,
            Characteristic::Properties => OBJECT_PROPERTIES,
            Characteristic::ActionControl => OBJECT_ACTION_CONTROL_POINT,
            Characteristic::ListControl => OBJECT_LIST_CONTROL_POINT,
        }
    }

    /// The full UUID of the characteristic.
    pub fn uuid(&self) -> (r: Uuid)
        ensures
            r@ == spec_uuid_from_u32(self.spec_uuid16() as u32),
    {
        uuid_from_u16(self.uuid16())
    }

    /// Whether every server must expose the characteristic.
    pub fn is_mandatory(&self) -> (r: bool)
        ensures
            r == self.spec_is_mandatory(),
    {
        match self {
            Characteristic::ListControl => false,
            Characteristic::Id => false,
            Characteristic::FirstCreated => false,
            Characteristic::LastModified => false,
            _ => true,
        }
    }
}

/// The full UUID of the Object Transfer service.
pub fn service_uuid() -> (r: Uuid)
    ensures
        r@ == spec_uuid_from_u32(OBJECT_TRANSFER as u32),
{
    uuid_from_u16(OBJECT_TRANSFER)
}

} // verus!
