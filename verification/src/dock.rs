//! The five placement slots of the desktop.
use vstd::prelude::*;
use crate::geometry::AnchorPosition;

verus! {

/// One of the five slots that a window can occupy: the four edge docks,
/// which have a size, and the center, which fills what they leave.
#[derive(Clone, Copy, Debug, PartialEq, Eq, Structural)]
pub enum DockPosition {
    Top,
    Left,
    Bottom,
    Right,
    Center,
}

impl DockPosition {
    /// The number of the slot: the edge docks from 0 to 3, the center 4.
    pub open spec fn slot(self) -> int {
        match self {
            DockPosition::Top => 0,
            DockPosition::Left => 1,
            DockPosition::Bottom => 2,
            DockPosition::Right => 3,
            DockPosition::Center => 4,
        }
    }

    /// The dock is one of the four at the edges.
    pub open spec fn is_edge(self) -> bool {
        self != DockPosition::Center
    }

    /// The dock with the given slot number, if there is one.
    pub open spec fn of_slot(slot: int) -> Option<DockPosition> {
        if slot == 0 {
            Some(DockPosition::Top)
        } else if slot == 1 {
            Some(DockPosition::Left)
        } else if slot == 2 {
            Some(DockPosition::Bottom)
        } else if slot == 3 {
            Some(DockPosition::Right)
        } else if slot == 4 {
            Some(DockPosition::Center)
        } else {
            None
        }
    }

    /// The handle by which an edge dock is resized: it sits on the side of
    /// the dock that faces the center.
    pub open spec fn handle(self) -> Option<AnchorPosition> {
        match self {
            DockPosition::Top => Some(AnchorPosition::S),
            DockPosition::Left => Some(AnchorPosition::E),
            DockPosition::Bottom => Some(AnchorPosition::N),
            DockPosition::Right => Some(AnchorPosition::W),
            DockPosition::Center => None,
        }
    }

    /// The four edge docks, in the order of their slots.
    pub fn array() -> (docks: [DockPosition; 4])
        ensures
            docks@ == seq![
                DockPosition::Top,
                DockPosition::Left,
                DockPosition::Bottom,
                DockPosition::Right,
            ],
    {
        let docks = [DockPosition::Top, DockPosition::Left, DockPosition::Bottom, DockPosition::Right];
        docks
    }

    /// The slot number, for indexing.
    pub fn index(self) -> (slot: usize)
        ensures
            slot == self.slot(),
            slot < 5,
            self.is_edge() <==> slot < 4,
    {
        match self {
            DockPosition::Top => 0,
            DockPosition::Left => 1,
            DockPosition::Bottom => 2,
            DockPosition::Right => 3,
            DockPosition::Center => 4,
        }
    }

    /// The dock that a host names by number. Numbers outside 0 to 4 name no
    /// dock.
    pub fn from_index(number: i32) -> (dock: Option<DockPosition>)
        ensures
            dock == DockPosition::of_slot(number as int),
            dock.is_some() <==> 0 <= number <= 4,
            dock.is_some() ==> dock.unwrap().slot() == number,
    {
        match number {
            0 => Some(DockPosition::Top),
            1 => Some(DockPosition::Left),
            2 => Some(DockPosition::Bottom),
            3 => Some(DockPosition::Right),
            4 => Some(DockPosition::Center),
            _ => None,
        }
    }

    /// Whether the dock lies at an edge and so has a size.
    pub fn has_size(self) -> (edge: bool)
        ensures
            edge == self.is_edge(),
    {
        match self {
            DockPosition::Center => false,
            _ => true,
        }
    }

    /// The handle by which the dock is resized; the center has none.
    pub fn resize_anchor(self) -> (anchor: Option<AnchorPosition>)
        ensures
            anchor == self.handle(),
    {
        match self {
            DockPosition::Top => Some(AnchorPosition::S),
            DockPosition::Left => Some(AnchorPosition::E),
            DockPosition::Bottom => Some(AnchorPosition::N),
            DockPosition::Right => Some(AnchorPosition::W),
            DockPosition::Center => None,
        }
    }
}

/// Going from a dock to its slot number and back gives the dock again, and
/// no two docks share a slot.
pub proof fn lemma_slot_names_the_dock(dock: DockPosition, other: DockPosition)
    ensures
        0 <= dock.slot() < 5,
        DockPosition::of_slot(dock.slot()) == Some(dock),
        dock.slot() == other.slot() ==> dock == other,
{
}

} // verus!
