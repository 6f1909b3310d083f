//! The enumerations of `wl_output`.

use vstd::prelude::*;

verus! {

/// Subpixel geometry information.
#[derive(Clone, Copy, Debug, PartialEq, Eq, Structural)]
pub enum Subpixel {
    Unknown,
    NoGeometry,
    HorizontalRgb,
    HorizontalBgr,
    VerticalRgb,
    VerticalBgr,
}

impl Subpixel {
    /// The number that stands for this value on the wire.
    pub open spec fn code(self) -> u32 {
        match self {
            Subpixel::Unknown => 0,
            Subpixel::NoGeometry => 1,
            Subpixel::HorizontalRgb => 2,
            Subpixel::HorizontalBgr => 3,
            Subpixel::VerticalRgb => 4,
            Subpixel::VerticalBgr => 5,
        }
    }

    /// The value that a number stands for, if any.
    pub open spec fn from_code(v: u32) -> Option<Subpixel> {
        if v == 0 {
            Some(Subpixel::Unknown)
        } else if v == 1 {
            Some(Subpixel::NoGeometry)
        } else if v == 2 {
            Some(Subpixel::HorizontalRgb)
        } else if v == 3 {
            Some(Subpixel::HorizontalBgr)
        } else if v == 4 {
            Some(Subpixel::VerticalRgb)
        } else if v == 5 {
            Some(Subpixel::VerticalBgr)
        } else {
            None
        }
    }

    pub fn value(&self) -> (r: u32)
        ensures
            r == self.code(),
    {
        match self {
            Subpixel::Unknown => 0,
            Subpixel::NoGeometry => 1,
            Subpixel::HorizontalRgb => 2,
            Subpixel::HorizontalBgr => 3,
            Subpixel::VerticalRgb => 4,
            Subpixel::VerticalBgr => 5,
        }
    }

    pub fn from_value(v: u32) -> (r: Option<Subpixel>)
        ensures
            r == Self::from_code(v),
    {
        match v {
            0 => Some(Subpixel::Unknown),
            1 => Some(Subpixel::NoGeometry),
            2 => Some(Subpixel::HorizontalRgb),
            3 => Some(Subpixel::HorizontalBgr),
            4 => Some(Subpixel::VerticalRgb),
            5 => Some(Subpixel::VerticalBgr),
            _ => None,
        }
    }

    /// Every value comes back from its number.
    pub proof fn lemma_code_roundtrip(self)
        ensures
            Self::from_code(self.code()) == Some(self),
    {
    }

    /// A number comes back from the value it stands for.
    pub proof fn lemma_from_code(v: u32)
        ensures
            Self::from_code(v) matches Some(e) ==> e.code() == v,
    {
    }
}

/// Transform from framebuffer to output.
#[derive(Clone, Copy, Debug, PartialEq, Eq, Structural)]
pub enum Transform {
    TransformNormal,
    Transform90,
    Transform180,
    Transform270,
    TransformFlipped,
    TransformFlipped90,
    TransformFlipped180,
    TransformFlipped270,
}

impl Transform {
    /// The number that stands for this value on the wire.
    pub open spec fn code(self) -> u32 {
        match self {
            Transform::TransformNormal => 0,
            Transform::Transform90 => 1,
            Transform::Transform180 => 2,
            Transform::Transform270 => 3,
            Transform::TransformFlipped => 4,
            Transform::TransformFlipped90 => 5,
            Transform::TransformFlipped180 => 6,
            Transform::TransformFlipped270 => 7,
        }
    }

    /// The value that a number stands for, if any.
    pub open spec fn from_code(v: u32) -> Option<Transform> {
        if v == 0 {
            Some(Transform::TransformNormal)
        } else if v == 1 {
            Some(Transform::Transform90)
        } else if v == 2 {
            Some(Transform::Transform180)
        } else if v == 3 {
            Some(Transform::Transform270)
        } else if v == 4 {
            Some(Transform::TransformFlipped)
        } else if v == 5 {
            Some(Transform::TransformFlipped90)
        } else if v == 6 {
            Some(Transform::TransformFlipped180)
        } else if v == 7 {
            Some(Transform::TransformFlipped270)
        } else {
            None
        }
    }

    pub fn value(&self) -> (r: u32)
        ensures
            r == self.code(),
    {
        match self {
            Transform::TransformNormal => 0,
            Transform::Transform90 => 1,
            Transform::Transform180 => 2,
            Transform::Transform270 => 3,
            Transform::TransformFlipped => 4,
            Transform::TransformFlipped90 => 5,
            Transform::TransformFlipped180 => 6,
            Transform::TransformFlipped270 => 7,
        }
    }

    pub fn from_value(v: u32) -> (r: Option<Transform>)
        ensures
            r == Self::from_code(v),
    {
        match v {
            0 => Some(Transform::TransformNormal),
            1 => Some(Transform::Transform90),
            2 => Some(Transform::Transform180),
            3 => Some(Transform::Transform270),
            4 => Some(Transform::TransformFlipped),
            5 => Some(Transform::TransformFlipped90),
            6 => Some(Transform::TransformFlipped180),
            7 => Some(Transform::TransformFlipped270),
            _ => None,
        }
    }

    /// Every value comes back from its number.
    pub proof fn lemma_code_roundtrip(self)
        ensures
            Self::from_code(self.code()) == Some(self),
    {
    }

    /// A number comes back from the value it stands for.
    pub proof fn lemma_from_code(v: u32)
        ensures
            Self::from_code(v) matches Some(e) ==> e.code() == v,
    {
    }
}

/// Mode information.
#[derive(Clone, Copy, Debug, PartialEq, Eq, Structural)]
pub enum Mode {
    Current,
    Preferred,
}

impl Mode {
    /// The number that stands for this value on the wire.
    pub open spec fn code(self) -> u32 {
        match self {
            Mode::Current => 1,
            Mode::Preferred => 2,
        }
    }

    /// The value that a number stands for, if any.
    pub open spec fn from_code(v: u32) -> Option<Mode> {
        if v == 1 {
            Some(Mode::Current)
        } else if v == 2 {
            Some(Mode::Preferred)
        } else {
            None
        }
    }

    pub fn value(&self) -> (r: u32)
        ensures
            r == self.code(),
    {
        match self {
            Mode::Current => 1,
            Mode::Preferred => 2,
        }
    }

    pub fn from_value(v: u32) -> (r: Option<Mode>)
        ensures
            r == Self::from_code(v),
    {
        match v {
            1 => Some(Mode::Current),
            2 => Some(Mode::Preferred),
            _ => None,
        }
    }

    /// Every value comes back from its number.
    pub proof fn lemma_code_roundtrip(self)
        ensures
            Self::from_code(self.code()) == Some(self),
    {
    }

    /// A number comes back from the value it stands for.
    pub proof fn lemma_from_code(v: u32)
        ensures
            Self::from_code(v) matches Some(e) ==> e.code() == v,
    {
    }
}

} // verus!
