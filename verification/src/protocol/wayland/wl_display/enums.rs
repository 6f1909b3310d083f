//! The enumerations of `wl_display`.

use vstd::prelude::*;

verus! {

/// Global error values.
#[derive(Clone, Copy, Debug, PartialEq, Eq, Structural)]
pub enum Error {
    InvalidObject,
    InvalidMethod,
    NoMemory,
}

impl Error {
    /// The number that stands for this value on the wire.
    pub open spec fn code(self) -> u32 {
        match self {
            Error::InvalidObject => 0,
            Error::InvalidMethod => 1,
            Error::NoMemory => 2,
        }
    }

    /// The value that a number stands for, if any.
    pub open spec fn from_code(v: u32) -> Option<Error> {
        if v == 0 {
            Some(Error::InvalidObject)
        } else if v == 1 {
            Some(Error::InvalidMethod)
        } else if v == 2 {
            Some(Error::NoMemory)
        } else {
            None
        }
    }

    pub fn value(&self) -> (r: u32)
        ensures
            r == self.code(),
    {
        match self {
            Error::InvalidObject => 0,
            Error::InvalidMethod => 1,
            Error::NoMemory => 2,
        }
    }

    pub fn from_value(v: u32) -> (r: Option<Error>)
        ensures
            r == Self::from_code(v),
    {
        match v {
            0 => Some(Error::InvalidObject),
            1 => Some(Error::InvalidMethod),
            2 => Some(Error::NoMemory),
            _ => None,
        }
    }

    /// Every value comes back from its number.
    pub proof fn lemma_code_roundtrip(self)
        ensures
            Self::from_code(self.code()) == Some(self),
    {
    }

    /// A number comes back from the value it stands for.
    pub proof fn lemma_from_code(v: u32)
        ensures
            Self::from_code(v) matches Some(e) ==> e.code() == v,
    {
    }
}

} // verus!
