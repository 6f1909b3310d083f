//! The enumerations of `xdg_wm_base`.

use vstd::prelude::*;

verus! {

/// xdg_wm_base error values.
#[derive(Clone, Copy, Debug, PartialEq, Eq, Structural)]
pub enum Error {
    Role,
    DefunctSurfaces,
    NotTheTopmostPopup,
    InvalidPopupParent,
    InvalidSurfaceState,
    InvalidPositioner,
}

impl Error {
    /// The number that stands for this value on the wire.
    pub open spec fn code(self) -> u32 {
        match self {
            Error::Role => 0,
            Error::DefunctSurfaces => 1,
            Error::NotTheTopmostPopup => 2,
            Error::InvalidPopupParent => 3,
            Error::InvalidSurfaceState => 4,
            Error::InvalidPositioner => 5,
        }
    }

    /// The value that a number stands for, if any.
    pub open spec fn from_code(v: u32) -> Option<Error> {
        if v == 0 {
            Some(Error::Role)
        } else if v == 1 {
            Some(Error::DefunctSurfaces)
        } else if v == 2 {
            Some(Error::NotTheTopmostPopup)
        } else if v == 3 {
            Some(Error::InvalidPopupParent)
        } else if v == 4 {
            Some(Error::InvalidSurfaceState)
        } else if v == 5 {
            Some(Error::InvalidPositioner)
        } else {
            None
        }
    }

    pub fn value(&self) -> (r: u32)
        ensures
            r == self.code(),
    {
        match self {
            Error::Role => 0,
            Error::DefunctSurfaces => 1,
            Error::NotTheTopmostPopup => 2,
            Error::InvalidPopupParent => 3,
            Error::InvalidSurfaceState => 4,
            Error::InvalidPositioner => 5,
        }
    }

    pub fn from_value(v: u32) -> (r: Option<Error>)
        ensures
            r == Self::from_code(v),
    {
        match v {
            0 => Some(Error::Role),
            1 => Some(Error::DefunctSurfaces),
            2 => Some(Error::NotTheTopmostPopup),
            3 => Some(Error::InvalidPopupParent),
            4 => Some(Error::InvalidSurfaceState),
            5 => Some(Error::InvalidPositioner),
            _ => None,
        }
    }

    /// Every value comes back from its number.
    pub proof fn lemma_code_roundtrip(self)
        ensures
            Self::from_code(self.code()) == Some(self),
    {
    }

    /// A number comes back from the value it stands for.
    pub proof fn lemma_from_code(v: u32)
        ensures
            Self::from_code(v) matches Some(e) ==> e.code() == v,
    {
    }
}

} // verus!
