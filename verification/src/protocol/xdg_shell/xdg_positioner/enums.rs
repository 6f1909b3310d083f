//! The enumerations of `xdg_positioner`.

use vstd::prelude::*;

verus! {

/// xdg_positioner error values.
#[derive(Clone, Copy, Debug, PartialEq, Eq, Structural)]
pub enum Error {
    InvalidInput,
}

impl Error {
    /// The number that stands for this value on the wire.
    pub open spec fn code(self) -> u32 {
        match self {
            Error::InvalidInput => 0,
        }
    }

    /// The value that a number stands for, if any.
    pub open spec fn from_code(v: u32) -> Option<Error> {
        if v == 0 {
            Some(Error::InvalidInput)
        } else {
            None
        }
    }

    pub fn value(&self) -> (r: u32)
        ensures
            r == self.code(),
    {
        match self {
            Error::InvalidInput => 0,
        }
    }

    pub fn from_value(v: u32) -> (r: Option<Error>)
        ensures
            r == Self::from_code(v),
    {
        match v {
            0 => Some(Error::InvalidInput),
            _ => None,
        }
    }

    /// Every value comes back from its number.
    pub proof fn lemma_code_roundtrip(self)
        ensures
            Self::from_code(self.code()) == Some(self),
    {
    }

    /// A number comes back from the value it stands for.
    pub proof fn lemma_from_code(v: u32)
        ensures
            Self::from_code(v) matches Some(e) ==> e.code() == v,
    {
    }
}

/// Anchor edges.
#[derive(Clone, Copy, Debug, PartialEq, Eq, Structural)]
pub enum Anchor {
    NoAnchor,
    Top,
    Bottom,
    Left,
    Right,
    TopLeft,
    BottomLeft,
    TopRight,
    BottomRight,
}

impl Anchor {
    /// The number that stands for this value on the wire.
    pub open spec fn code(self) -> u32 {
        match self {
            Anchor::NoAnchor => 0,
            Anchor::Top => 1,
            Anchor::Bottom => 2,
            Anchor::Left => 3,
            Anchor::Right => 4,
            Anchor::TopLeft => 5,
            Anchor::BottomLeft => 6,
            Anchor::TopRight => 7,
            Anchor::BottomRight => 8,
        }
    }

    /// The value that a number stands for, if any.
    pub open spec fn from_code(v: u32) -> Option<Anchor> {
        if v == 0 {
            Some(Anchor::NoAnchor)
        } else if v == 1 {
            Some(Anchor::Top)
        } else if v == 2 {
            Some(Anchor::Bottom)
        } else if v == 3 {
            Some(Anchor::Left)
        } else if v == 4 {
            Some(Anchor::Right)
        } else if v == 5 {
            Some(Anchor::TopLeft)
        } else if v == 6 {
            Some(Anchor::BottomLeft)
        } else if v == 7 {
            Some(Anchor::TopRight)
        } else if v == 8 {
            Some(Anchor::BottomRight)
        } else {
            None
        }
    }

    pub fn value(&self) -> (r: u32)
        ensures
            r == self.code(),
    {
        match self {
            Anchor::NoAnchor => 0,
            Anchor::Top => 1,
            Anchor::Bottom => 2,
            Anchor::Left => 3,
            Anchor::Right => 4,
            Anchor::TopLeft => 5,
            Anchor::BottomLeft => 6,
            Anchor::TopRight => 7,
            Anchor::BottomRight => 8,
        }
    }

    pub fn from_value(v: u32) -> (r: Option<Anchor>)
        ensures
            r == Self::from_code(v),
    {
        match v {
            0 => Some(Anchor::NoAnchor),
            1 => Some(Anchor::Top),
            2 => Some(Anchor::Bottom),
            3 => Some(Anchor::Left),
            4 => Some(Anchor::Right),
            5 => Some(Anchor::TopLeft),
            6 => Some(Anchor::BottomLeft),
            7 => Some(Anchor::TopRight),
            8 => Some(Anchor::BottomRight),
            _ => None,
        }
    }

    /// Every value comes back from its number.
    pub proof fn lemma_code_roundtrip(self)
        ensures
            Self::from_code(self.code()) == Some(self),
    {
    }

    /// A number comes back from the value it stands for.
    pub proof fn lemma_from_code(v: u32)
        ensures
            Self::from_code(v) matches Some(e) ==> e.code() == v,
    {
    }
}

/// Gravity directions.
#[derive(Clone, Copy, Debug, PartialEq, Eq, Structural)]
pub enum Gravity {
    NoGravity,
    Top,
    Bottom,
    Left,
    Right,
    TopLeft,
    BottomLeft,
    TopRight,
    BottomRight,
}

impl Gravity {
    /// The number that stands for this value on the wire.
    pub open spec fn code(self) -> u32 {
        match self {
            Gravity::NoGravity => 0,
            Gravity::Top => 1,
            Gravity::Bottom => 2,
            Gravity::Left => 3,
            Gravity::Right => 4,
            Gravity::TopLeft => 5,
            Gravity::BottomLeft => 6,
            Gravity::TopRight => 7,
            Gravity::BottomRight => 8,
        }
    }

    /// The value that a number stands for, if any.
    pub open spec fn from_code(v: u32) -> Option<Gravity> {
        if v == 0 {
            Some(Gravity::NoGravity)
        } else if v == 1 {
            Some(Gravity::Top)
        } else if v == 2 {
            Some(Gravity::Bottom)
        } else if v == 3 {
            Some(Gravity::Left)
        } else if v == 4 {
            Some(Gravity::Right)
        } else if v == 5 {
            Some(Gravity::TopLeft)
        } else if v == 6 {
            Some(Gravity::BottomLeft)
        } else if v == 7 {
            Some(Gravity::TopRight)
        } else if v == 8 {
            Some(Gravity::BottomRight)
        } else {
            None
        }
    }

    pub fn value(&self) -> (r: u32)
        ensures
            r == self.code(),
    {
        match self {
            Gravity::NoGravity => 0,
            Gravity::Top => 1,
            Gravity::Bottom => 2,
            Gravity::Left => 3,
            Gravity::Right => 4,
            Gravity::TopLeft => 5,
            Gravity::BottomLeft => 6,
            Gravity::TopRight => 7,
            Gravity::BottomRight => 8,
        }
    }

    pub fn from_value(v: u32) -> (r: Option<Gravity>)
        ensures
            r == Self::from_code(v),
    {
        match v {
            0 => Some(Gravity::NoGravity),
            1 => Some(Gravity::Top),
            2 => Some(Gravity::Bottom),
            3 => Some(Gravity::Left),
            4 => Some(Gravity::Right),
            5 => Some(Gravity::TopLeft),
            6 => Some(Gravity::BottomLeft),
            7 => Some(Gravity::TopRight),
            8 => Some(Gravity::BottomRight),
            _ => None,
        }
    }

    /// Every value comes back from its number.
    pub proof fn lemma_code_roundtrip(self)
        ensures
            Self::from_code(self.code()) == Some(self),
    {
    }

    /// A number comes back from the value it stands for.
    pub proof fn lemma_from_code(v: u32)
        ensures
            Self::from_code(v) matches Some(e) ==> e.code() == v,
    {
    }
}

/// How to adjust a surface that would be constrained.
#[derive(Clone, Copy, Debug, PartialEq, Eq, Structural)]
pub enum ConstraintAdjustment {
    NoAdjustment,
    SlideX,
    SlideY,
    FlipX,
    FlipY,
    ResizeX,
    ResizeY,
}

impl ConstraintAdjustment {
    /// The number that stands for this value on the wire.
    pub open spec fn code(self) -> u32 {
        match self {
            ConstraintAdjustment::NoAdjustment => 0,
            ConstraintAdjustment::SlideX => 1,
            ConstraintAdjustment::SlideY => 2,
            ConstraintAdjustment::FlipX => 4,
            ConstraintAdjustment::FlipY => 8,
            ConstraintAdjustment::ResizeX => 0x10,
            ConstraintAdjustment::ResizeY => 0x20,
        }
    }

    /// The value that a number stands for, if any.
    pub open spec fn from_code(v: u32) -> Option<ConstraintAdjustment> {
        if v == 0 {
            Some(ConstraintAdjustment::NoAdjustment)
        } else if v == 1 {
            Some(ConstraintAdjustment::SlideX)
        } else if v == 2 {
            Some(ConstraintAdjustment::SlideY)
        } else if v == 4 {
            Some(ConstraintAdjustment::FlipX)
        } else if v == 8 {
            Some(ConstraintAdjustment::FlipY)
        } else if v == 0x10 {
            Some(ConstraintAdjustment::ResizeX)
        } else if v == 0x20 {
            Some(ConstraintAdjustment::ResizeY)
        } else {
            None
        }
    }

    pub fn value(&self) -> (r: u32)
        ensures
            r == self.code(),
    {
        match self {
            ConstraintAdjustment::NoAdjustment => 0,
            ConstraintAdjustment::SlideX => 1,
            ConstraintAdjustment::SlideY => 2,
            ConstraintAdjustment::FlipX => 4,
            ConstraintAdjustment::FlipY => 8,
            ConstraintAdjustment::ResizeX => 0x10,
            ConstraintAdjustment::ResizeY => 0x20,
        }
    }

    pub fn from_value(v: u32) -> (r: Option<ConstraintAdjustment>)
        ensures
            r == Self::from_code(v),
    {
        match v {
            0 => Some(ConstraintAdjustment::NoAdjustment),
            1 => Some(ConstraintAdjustment::SlideX),
            2 => Some(ConstraintAdjustment::SlideY),
            4 => Some(ConstraintAdjustment::FlipX),
            8 => Some(ConstraintAdjustment::FlipY),
            0x10 => Some(ConstraintAdjustment::ResizeX),
            0x20 => Some(ConstraintAdjustment::ResizeY),
            _ => None,
        }
    }

    /// Every value comes back from its number.
    pub proof fn lemma_code_roundtrip(self)
        ensures
            Self::from_code(self.code()) == Some(self),
    {
    }

    /// A number comes back from the value it stands for.
    pub proof fn lemma_from_code(v: u32)
        ensures
            Self::from_code(v) matches Some(e) ==> e.code() == v,
    {
    }
}

} // verus!
