//! The enumerations of `wl_data_device_manager`.

use vstd::prelude::*;

verus! {

/// Drag and drop actions.
#[derive(Clone, Copy, Debug, PartialEq, Eq, Structural)]
pub enum DndAction {
    NoAction,
    Copy,
    Move,
    Ask,
}

impl DndAction {
    /// The number that stands for this value on the wire.
    pub open spec fn code(self) -> u32 {
        match self {
            DndAction::NoAction => 0,
            DndAction::Copy => 1,
            DndAction::Move => 2,
            DndAction::Ask => 4,
        }
    }

    /// The value that a number stands for, if any.
    pub open spec fn from_code(v: u32) -> Option<DndAction> {
        if v == 0 {
            Some(DndAction::NoAction)
        } else if v == 1 {
            Some(DndAction::Copy)
        } else if v == 2 {
            Some(DndAction::Move)
        } else if v == 4 {
            Some(DndAction::Ask)
        } else {
            None
        }
    }

    pub fn value(&self) -> (r: u32)
        ensures
            r == self.code(),
    {
        match self {
            DndAction::NoAction => 0,
            DndAction::Copy => 1,
            DndAction::Move => 2,
            DndAction::Ask => 4,
        }
    }

    pub fn from_value(v: u32) -> (r: Option<DndAction>)
        ensures
            r == Self::from_code(v),
    {
        match v {
            0 => Some(DndAction::NoAction),
            1 => Some(DndAction::Copy),
            2 => Some(DndAction::Move),
            4 => Some(DndAction::Ask),
            _ => None,
        }
    }

    /// Every value comes back from its number.
    pub proof fn lemma_code_roundtrip(self)
        ensures
            Self::from_code(self.code()) == Some(self),
    {
    }

    /// A number comes back from the value it stands for.
    pub proof fn lemma_from_code(v: u32)
        ensures
            Self::from_code(v) matches Some(e) ==> e.code() == v,
    {
    }
}

} // verus!
