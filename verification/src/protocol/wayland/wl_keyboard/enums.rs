//! The enumerations of `wl_keyboard`.

use vstd::prelude::*;

verus! {

/// Keyboard mapping format.
#[derive(Clone, Copy, Debug, PartialEq, Eq, Structural)]
pub enum KeymapFormat {
    NoKeymap,
    XkbV1,
}

impl KeymapFormat {
    /// The number that stands for this value on the wire.
    pub open spec fn code(self) -> u32 {
        match self {
            KeymapFormat::NoKeymap => 0,
            KeymapFormat::XkbV1 => 1,
        }
    }

    /// The value that a number stands for, if any.
    pub open spec fn from_code(v: u32) -> Option<KeymapFormat> {
        if v == 0 {
            Some(KeymapFormat::NoKeymap)
        } else if v == 1 {
            Some(KeymapFormat::XkbV1)
        } else {
            None
        }
    }

    pub fn value(&self) -> (r: u32)
        ensures
            r == self.code(),
    {
        match self {
            KeymapFormat::NoKeymap => 0,
            KeymapFormat::XkbV1 => 1,
        }
    }

    pub fn from_value(v: u32) -> (r: Option<KeymapFormat>)
        ensures
            r == Self::from_code(v),
    {
        match v {
            0 => Some(KeymapFormat::NoKeymap),
            1 => Some(KeymapFormat::XkbV1),
            _ => None,
        }
    }

    /// Every value comes back from its number.
    pub proof fn lemma_code_roundtrip(self)
        ensures
            Self::from_code(self.code()) == Some(self),
    {
    }

    /// A number comes back from the value it stands for.
    pub proof fn lemma_from_code(v: u32)
        ensures
            Self::from_code(v) matches Some(e) ==> e.code() == v,
    {
    }
}

/// Physical key state.
#[derive(Clone, Copy, Debug, PartialEq, Eq, Structural)]
pub enum KeyState {
    Released,
    Pressed,
}

impl KeyState {
    /// The number that stands for this value on the wire.
    pub open spec fn code(self) -> u32 {
        match self {
            KeyState::Released => 0,
            KeyState::Pressed => 1,
        }
    }

    /// The value that a number stands for, if any.
    pub open spec fn from_code(v: u32) -> Option<KeyState> {
        if v == 0 {
            Some(KeyState::Released)
        } else if v == 1 {
            Some(KeyState::Pressed)
        } else {
            None
        }
    }

    pub fn value(&self) -> (r: u32)
        ensures
            r == self.code(),
    {
        match self {
            KeyState::Released => 0,
            KeyState::Pressed => 1,
        }
    }

    pub fn from_value(v: u32) -> (r: Option<KeyState>)
        ensures
            r == Self::from_code(v),
    {
        match v {
            0 => Some(KeyState::Released),
            1 => Some(KeyState::Pressed),
            _ => None,
        }
    }

    /// Every value comes back from its number.
    pub proof fn lemma_code_roundtrip(self)
        ensures
            Self::from_code(self.code()) == Some(self),
    {
    }

    /// A number comes back from the value it stands for.
    pub proof fn lemma_from_code(v: u32)
        ensures
            Self::from_code(v) matches Some(e) ==> e.code() == v,
    {
    }
}

} // verus!
