//! The enumerations of `wl_pointer`.

use vstd::prelude::*;

verus! {

/// wl_pointer error values.
#[derive(Clone, Copy, Debug, PartialEq, Eq, Structural)]
pub enum Error {
    Role,
}

impl Error {
    /// The number that stands for this value on the wire.
    pub open spec fn code(self) -> u32 {
        match self {
            Error::Role => 0,
        }
    }

    /// The value that a number stands for, if any.
    pub open spec fn from_code(v: u32) -> Option<Error> {
        if v == 0 {
            Some(Error::Role)
        } else {
            None
        }
    }

    pub fn value(&self) -> (r: u32)
        ensures
            r == self.code(),
    {
        match self {
            Error::Role => 0,
        }
    }

    pub fn from_value(v: u32) -> (r: Option<Error>)
        ensures
            r == Self::from_code(v),
    {
        match v {
            0 => Some(Error::Role),
            _ => None,
        }
    }

    /// Every value comes back from its number.
    pub proof fn lemma_code_roundtrip(self)
        ensures
            Self::from_code(self.code()) == Some(self),
    {
    }

    /// A number comes back from the value it stands for.
    pub proof fn lemma_from_code(v: u32)
        ensures
            Self::from_code(v) matches Some(e) ==> e.code() == v,
    {
    }
}

/// Physical button state.
#[derive(Clone, Copy, Debug, PartialEq, Eq, Structural)]
pub enum ButtonState {
    Released,
    Pressed,
}

impl ButtonState {
    /// The number that stands for this value on the wire.
    pub open spec fn code(self) -> u32 {
        match self {
            ButtonState::Released => 0,
            ButtonState::Pressed => 1,
        }
    }

    /// The value that a number stands for, if any.
    pub open spec fn from_code(v: u32) -> Option<ButtonState> {
        if v == 0 {
            Some(ButtonState::Released)
        } else if v == 1 {
            Some(ButtonState::Pressed)
        } else {
            None
        }
    }

    pub fn value(&self) -> (r: u32)
        ensures
            r == self.code(),
    {
        match self {
            ButtonState::Released => 0,
            ButtonState::Pressed => 1,
        }
    }

    pub fn from_value(v: u32) -> (r: Option<ButtonState>)
        ensures
            r == Self::from_code(v),
    {
        match v {
            0 => Some(ButtonState::Released),
            1 => Some(ButtonState::Pressed),
            _ => None,
        }
    }

    /// Every value comes back from its number.
    pub proof fn lemma_code_roundtrip(self)
        ensures
            Self::from_code(self.code()) == Some(self),
    {
    }

    /// A number comes back from the value it stands for.
    pub proof fn lemma_from_code(v: u32)
        ensures
            Self::from_code(v) matches Some(e) ==> e.code() == v,
    {
    }
}

/// Axis types.
#[derive(Clone, Copy, Debug, PartialEq, Eq, Structural)]
pub enum Axis {
    VerticalScroll,
    HorizontalScroll,
}

impl Axis {
    /// The number that stands for this value on the wire.
    pub open spec fn code(self) -> u32 {
        match self {
            Axis::VerticalScroll => 0,
            Axis::HorizontalScroll => 1,
        }
    }

    /// The value that a number stands for, if any.
    pub open spec fn from_code(v: u32) -> Option<Axis> {
        if v == 0 {
            Some(Axis::VerticalScroll)
        } else if v == 1 {
            Some(Axis::HorizontalScroll)
        } else {
            None
        }
    }

    pub fn value(&self) -> (r: u32)
        ensures
            r == self.code(),
    {
        match self {
            Axis::VerticalScroll => 0,
            Axis::HorizontalScroll => 1,
        }
    }

    pub fn from_value(v: u32) -> (r: Option<Axis>)
        ensures
            r == Self::from_code(v),
    {
        match v {
            0 => Some(Axis::VerticalScroll),
            1 => Some(Axis::HorizontalScroll),
            _ => None,
        }
    }

    /// Every value comes back from its number.
    pub proof fn lemma_code_roundtrip(self)
        ensures
            Self::from_code(self.code()) == Some(self),
    {
    }

    /// A number comes back from the value it stands for.
    pub proof fn lemma_from_code(v: u32)
        ensures
            Self::from_code(v) matches Some(e) ==> e.code() == v,
    {
    }
}

/// Axis source types.
#[derive(Clone, Copy, Debug, PartialEq, Eq, Structural)]
pub enum AxisSource {
    Wheel,
    Finger,
    Continuous,
    WheelTilt,
}

impl AxisSource {
    /// The number that stands for this value on the wire.
    pub open spec fn code(self) -> u32 {
        match self {
            AxisSource::Wheel => 0,
            AxisSource::Finger => 1,
            AxisSource::Continuous => 2,
            AxisSource::WheelTilt => 3,
        }
    }

    /// The value that a number stands for, if any.
    pub open spec fn from_code(v: u32) -> Option<AxisSource> {
        if v == 0 {
            Some(AxisSource::Wheel)
        } else if v == 1 {
            Some(AxisSource::Finger)
        } else if v == 2 {
            Some(AxisSource::Continuous)
        } else if v == 3 {
            Some(AxisSource::WheelTilt)
        } else {
            None
        }
    }

    pub fn value(&self) -> (r: u32)
        ensures
            r == self.code(),
    {
        match self {
            AxisSource::Wheel => 0,
            AxisSource::Finger => 1,
            AxisSource::Continuous => 2,
            AxisSource::WheelTilt => 3,
        }
    }

    pub fn from_value(v: u32) -> (r: Option<AxisSource>)
        ensures
            r == Self::from_code(v),
    {
        match v {
            0 => Some(AxisSource::Wheel),
            1 => Some(AxisSource::Finger),
            2 => Some(AxisSource::Continuous),
            3 => Some(AxisSource::WheelTilt),
            _ => None,
        }
    }

    /// Every value comes back from its number.
    pub proof fn lemma_code_roundtrip(self)
        ensures
            Self::from_code(self.code()) == Some(self),
    {
    }

    /// A number comes back from the value it stands for.
    pub proof fn lemma_from_code(v: u32)
        ensures
            Self::from_code(v) matches Some(e) ==> e.code() == v,
    {
    }
}

} // verus!
