//! The enumerations of `xdg_surface`.

use vstd::prelude::*;

verus! {

/// xdg_surface error values.
#[derive(Clone, Copy, Debug, PartialEq, Eq, Structural)]
pub enum Error {
    NotConstructed,
    AlreadyConstructed,
    UnconfiguredBuffer,
    /// The window geometry's width or height is not positive.
    InvalidSize,
}

impl Error {
    /// The number that stands for this value on the wire.
    pub open spec fn code(self) -> u32 {
        match self {
            Error::NotConstructed => 1,
            Error::AlreadyConstructed => 2,
            Error::UnconfiguredBuffer => 3,
            Error::InvalidSize => 5,
        }
    }

    /// The value that a number stands for, if any.
    pub open spec fn from_code(v: u32) -> Option<Error> {
        if v == 1 {
            Some(Error::NotConstructed)
        } else if v == 2 {
            Some(Error::AlreadyConstructed)
        } else if v == 3 {
            Some(Error::UnconfiguredBuffer)
        } else if v == 5 {
            Some(Error::InvalidSize)
        } else {
            None
        }
    }

    pub fn value(&self) -> (r: u32)
        ensures
            r == self.code(),
    {
        match self {
            Error::NotConstructed => 1,
            Error::AlreadyConstructed => 2,
            Error::UnconfiguredBuffer => 3,
            Error::InvalidSize => 5,
        }
    }

    pub fn from_value(v: u32) -> (r: Option<Error>)
        ensures
            r == Self::from_code(v),
    {
        match v {
            1 => Some(Error::NotConstructed),
            2 => Some(Error::AlreadyConstructed),
            3 => Some(Error::UnconfiguredBuffer),
            5 => Some(Error::InvalidSize),
            _ => None,
        }
    }

    /// Every value comes back from its number.
    pub proof fn lemma_code_roundtrip(self)
        ensures
            Self::from_code(self.code()) == Some(self),
    {
    }

    /// A number comes back from the value it stands for.
    pub proof fn lemma_from_code(v: u32)
        ensures
            Self::from_code(v) matches Some(e) ==> e.code() == v,
    {
    }
}

} // verus!
