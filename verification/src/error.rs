//! The error type shared by every decoder and decision function.

use vstd::prelude::*;

use crate::codes::{ActionRc, ListRc};

verus! {

/// The family of one-byte codes an unknown code was looked up in.
#[derive(Debug, Clone, Copy, PartialEq, Eq, Hash, Structural)]
pub enum OpType {
    SortOrder,
    ListOp,
    ListRc,
    ActionOp,
    ActionRc,
}

impl OpType {
    /// The name of the code family.
    pub open spec fn spec_name(self) -> Seq<char> {
        match self {
            OpType::SortOrder => "SortOrder"@,
            OpType::ListOp => "ListOp"@,
            OpType::ListRc => "ListRc"@,
            OpType::ActionOp => "ActionOp"@,
            OpType::ActionRc => "ActionRc"@,
        }
    }

    /// The name of the code family.
    pub fn name(&self) -> (r: &'static str)
        ensures
            r@ == self.spec_name(),
    {
        match self {
            OpType::SortOrder => "SortOrder",
            OpType::ListOp => "ListOp",
            OpType::ListRc => "ListRc",
            OpType::ActionOp => "ActionOp",
            OpType::ActionRc => "ActionRc",
        }
    }
}

/// Everything that can go wrong while decoding or deciding.
#[derive(Debug, Clone, Copy, PartialEq, Eq, Hash, Structural)]
pub enum Error {
    /// A name is not valid UTF-8.
    BadUtf8,
    /// The server lacks the feature or the characteristic the operation needs.
    NotSupported,
    /// The device is known to no adapter.
    NotFound,
    /// No notification answered a control-point request in time.
    NoResponse,
    /// The bytes received are no response of the control point asked.
    BadResponse,
    /// The data channel did not open in time.
    Timeout,
    /// A raw UUID has a length other than 2, 4 or 16.
    BadUuidSize(usize),
    /// The object list control point answered with a failure code.
    ListError(ListRc),
    /// The object action control point answered with a failure code.
    ActionError(ActionRc),
    /// Action feature bits with undefined bits set.
    BadActionFeatures(u32),
    /// List feature bits with undefined bits set.
    BadListFeatures(u32),
    /// Object property bits with undefined bits set.
    BadProperties(u32),
    /// Directory flag bits with undefined bits set.
    BadDirFlags(u8),
    /// Fewer bytes than the value needs.
    NotEnoughData { actual: usize, needed: usize },
    /// More bytes than the value takes.
    TooManyData { actual: usize, needed: usize },
    /// A byte that is no code of the given family.
    BadOpCode { type_: OpType, code: u8 },
}

impl Error {
    /// What `check_len` answers for a buffer of `actual` bytes where `needed` are wanted.
    pub open spec fn spec_check_len(actual: usize, needed: usize) -> Result<(), Error> {
        if actual < needed {
            Err(Error::NotEnoughData { actual, needed })
        } else {
            Ok(())
        }
    }

    /// What `check_len_exact` answers for a buffer of `actual` bytes where exactly
    /// `needed` are wanted.
    pub open spec fn spec_check_len_exact(actual: usize, needed: usize) -> Result<(), Error> {
        if actual < needed {
            Err(Error::NotEnoughData { actual, needed })
        } else if actual > needed {
            Err(Error::TooManyData { actual, needed })
        } else {
            Ok(())
        }
    }

    /// Checks that a buffer of `actual` bytes holds at least `needed`.
    pub fn check_len(actual: usize, needed: usize) -> (r: Result<(), Error>)
        ensures
            r == Self::spec_check_len(actual, needed),
    {
        if actual < needed {
            Err(Error::NotEnoughData { actual, needed })
        } else {
            Ok(())
        }
    }

    /// Checks that a buffer of `actual` bytes can hold a value of type `T`.
    pub fn check_size<T>(actual: usize) -> (r: Result<(), Error>)
        ensures
            r == Self::spec_check_len(actual, vstd::layout::size_of::<T>() as usize),
    {
        Self::check_len(actual, core::mem::size_of::<T>())
    }

    /// Checks that a buffer of `actual` bytes holds exactly `needed`.
    pub fn check_len_exact(actual: usize, needed: usize) -> (r: Result<(), Error>)
        ensures
            r == Self::spec_check_len_exact(actual, needed),
    {
        match Self::check_len(actual, needed) {
            Err(e) => Err(e),
            Ok(()) => {
                if actual > needed {
                    Err(Error::TooManyData { actual, needed })
                } else {
                    Ok(())
                }
            },
        }
    }

    /// Checks that a buffer of `actual` bytes holds exactly a value of type `T`.
    pub fn check_size_exact<T>(actual: usize) -> (r: Result<(), Error>)
        ensures
            r == Self::spec_check_len_exact(actual, vstd::layout::size_of::<T>() as usize),
    {
        Self::check_len_exact(actual, core::mem::size_of::<T>())
    }
}

/// A result seen through the view of what it holds.
pub open spec fn result_view<T: View>(r: Result<T, Error>) -> Result<T::V, Error> {
    match r {
        Ok(v) => Ok(v@),
        Err(e) => Err(e),
    }
}

} // verus!
