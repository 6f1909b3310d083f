//! The enumerations of `wl_shell_surface`.

use vstd::prelude::*;

verus! {

/// Edge values for resizing.
#[derive(Clone, Copy, Debug, PartialEq, Eq, Structural)]
pub enum Resize {
    NoEdge,
    Top,
    Bottom,
    Left,
    TopLeft,
    BottomLeft,
    Right,
    TopRight,
    BottomRight,
}

impl Resize {
    /// The number that stands for this value on the wire.
    pub open spec fn code(self) -> u32 {
        match self {
            Resize::NoEdge => 0,
            Resize::Top => 1,
            Resize::Bottom => 2,
            Resize::Left => 4,
            Resize::TopLeft => 5,
            Resize::BottomLeft => 6,
            Resize::Right => 8,
            Resize::TopRight => 9,
            Resize::BottomRight => 0xa,
        }
    }

    /// The value that a number stands for, if any.
    pub open spec fn from_code(v: u32) -> Option<Resize> {
        if v == 0 {
            Some(Resize::NoEdge)
        } else if v == 1 {
            Some(Resize::Top)
        } else if v == 2 {
            Some(Resize::Bottom)
        } else if v == 4 {
            Some(Resize::Left)
        } else if v == 5 {
            Some(Resize::TopLeft)
        } else if v == 6 {
            Some(Resize::BottomLeft)
        } else if v == 8 {
            Some(Resize::Right)
        } else if v == 9 {
            Some(Resize::TopRight)
        } else if v == 0xa {
            Some(Resize::BottomRight)
        } else {
            None
        }
    }

    pub fn value(&self) -> (r: u32)
        ensures
            r == self.code(),
    {
        match self {
            Resize::NoEdge => 0,
            Resize::Top => 1,
            Resize::Bottom => 2,
            Resize::Left => 4,
            Resize::TopLeft => 5,
            Resize::BottomLeft => 6,
            Resize::Right => 8,
            Resize::TopRight => 9,
            Resize::BottomRight => 0xa,
        }
    }

    pub fn from_value(v: u32) -> (r: Option<Resize>)
        ensures
            r == Self::from_code(v),
    {
        match v {
            0 => Some(Resize::NoEdge),
            1 => Some(Resize::Top),
            2 => Some(Resize::Bottom),
            4 => Some(Resize::Left),
            5 => Some(Resize::TopLeft),
            6 => Some(Resize::BottomLeft),
            8 => Some(Resize::Right),
            9 => Some(Resize::TopRight),
            0xa => Some(Resize::BottomRight),
            _ => None,
        }
    }

    /// Every value comes back from its number.
    pub proof fn lemma_code_roundtrip(self)
        ensures
            Self::from_code(self.code()) == Some(self),
    {
    }

    /// A number comes back from the value it stands for.
    pub proof fn lemma_from_code(v: u32)
        ensures
            Self::from_code(v) matches Some(e) ==> e.code() == v,
    {
    }
}

/// Details of transient behaviour.
#[derive(Clone, Copy, Debug, PartialEq, Eq, Structural)]
pub enum Transient {
    Inactive,
}

impl Transient {
    /// The number that stands for this value on the wire.
    pub open spec fn code(self) -> u32 {
        match self {
            Transient::Inactive => 1,
        }
    }

    /// The value that a number stands for, if any.
    pub open spec fn from_code(v: u32) -> Option<Transient> {
        if v == 1 {
            Some(Transient::Inactive)
        } else {
            None
        }
    }

    pub fn value(&self) -> (r: u32)
        ensures
            r == self.code(),
    {
        match self {
            Transient::Inactive => 1,
        }
    }

    pub fn from_value(v: u32) -> (r: Option<Transient>)
        ensures
            r == Self::from_code(v),
    {
        match v {
            1 => Some(Transient::Inactive),
            _ => None,
        }
    }

    /// Every value comes back from its number.
    pub proof fn lemma_code_roundtrip(self)
        ensures
            Self::from_code(self.code()) == Some(self),
    {
    }

    /// A number comes back from the value it stands for.
    pub proof fn lemma_from_code(v: u32)
        ensures
            Self::from_code(v) matches Some(e) ==> e.code() == v,
    {
    }
}

/// Different method to set the surface fullscreen.
#[derive(Clone, Copy, Debug, PartialEq, Eq, Structural)]
pub enum FullscreenMethod {
    Default,
    Scale,
    Driver,
    Fill,
}

impl FullscreenMethod {
    /// The number that stands for this value on the wire.
    pub open spec fn code(self) -> u32 {
        match self {
            FullscreenMethod::Default => 0,
            FullscreenMethod::Scale => 1,
            FullscreenMethod::Driver => 2,
            FullscreenMethod::Fill => 3,
        }
    }

    /// The value that a number stands for, if any.
    pub open spec fn from_code(v: u32) -> Option<FullscreenMethod> {
        if v == 0 {
            Some(FullscreenMethod::Default)
        } else if v == 1 {
            Some(FullscreenMethod::Scale)
        } else if v == 2 {
            Some(FullscreenMethod::Driver)
        } else if v == 3 {
            Some(FullscreenMethod::Fill)
        } else {
            None
        }
    }

    pub fn value(&self) -> (r: u32)
        ensures
            r == self.code(),
    {
        match self {
            FullscreenMethod::Default => 0,
            FullscreenMethod::Scale => 1,
            FullscreenMethod::Driver => 2,
            FullscreenMethod::Fill => 3,
        }
    }

    pub fn from_value(v: u32) -> (r: Option<FullscreenMethod>)
        ensures
            r == Self::from_code(v),
    {
        match v {
            0 => Some(FullscreenMethod::Default),
            1 => Some(FullscreenMethod::Scale),
            2 => Some(FullscreenMethod::Driver),
            3 => Some(FullscreenMethod::Fill),
            _ => None,
        }
    }

    /// Every value comes back from its number.
    pub proof fn lemma_code_roundtrip(self)
        ensures
            Self::from_code(self.code()) == Some(self),
    {
    }

    /// A number comes back from the value it stands for.
    pub proof fn lemma_from_code(v: u32)
        ensures
            Self::from_code(v) matches Some(e) ==> e.code() == v,
    {
    }
}

} // verus!
