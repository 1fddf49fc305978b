//! Client-side core of the Bluetooth Object Transfer Service (OTS).
//!
//! The crate holds the byte-level codecs of the service (feature flags,
//! object properties, identifiers, date-time stamps, directory listings and
//! the two control-point protocols), the rules by which a client decides what
//! to do next (capability gating, characteristic resolution, the
//! request/response transaction, transfer windows) and the layout of the
//! L2CAP socket address.  Everything here is pure: the caller performs the
//! GATT and socket traffic and hands the bytes in.

pub mod cli;
pub mod client;
pub mod codes;
pub mod control;
pub mod directory;
pub mod error;
pub mod flags;
pub mod ids;
pub mod l2cap;
pub mod le;
pub mod setup;
pub mod transaction;
pub mod transfer;
pub mod types;

pub use client::{ClientConfig, OtsClient};
pub use codes::{ActionOp, ActionRc, ListOp, ListRc, SortOrder};
pub use control::{ActionReq, ActionRes, ListReq, ListRes};
pub use directory::{DirEntries, Metadata};
pub use error::{Error, OpType};
pub use flags::{ActionFeature, DirFlag, ListFeature, Property, WriteMode};
pub use l2cap::{AddressType, L2capSockAddr, Psm, Security, SecurityLevel};
pub use types::{uuid_from_raw, DateTime, Sizes, Ule48, Uuid};
