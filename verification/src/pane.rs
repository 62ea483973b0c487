//! The fixed set of panes that the host window can hold.

use vstd::prelude::*;

verus! {

/// One of the five panes: the four quadrant panes and the control pane that
/// carries the sidebar.
#[derive(Clone, Copy, Debug, PartialEq, Eq, Hash, Structural)]
pub enum Pane {
    Main1,
    Main2,
    Main3,
    Main4,
    Control,
}

impl Pane {
    /// Whether this is one of the four quadrant panes.
    pub open spec fn is_quadrant(self) -> bool {
        self != Pane::Control
    }

    /// Position of a quadrant pane in the grid order top-left, top-right,
    /// bottom-left, bottom-right; 4 for the control pane.
    pub open spec fn index(self) -> int {
        match self {
            Pane::Main1 => 0,
            Pane::Main2 => 1,
            Pane::Main3 => 2,
            Pane::Main4 => 3,
            Pane::Control => 4,
        }
    }

    /// The quadrant pane at position `i` of the grid order.
    pub open spec fn at(i: int) -> Pane {
        if i == 0 {
            Pane::Main1
        } else if i == 1 {
            Pane::Main2
        } else if i == 2 {
            Pane::Main3
        } else {
            Pane::Main4
        }
    }

    /// The label under which the host window knows the pane.
    pub open spec fn label_text(self) -> Seq<char> {
        match self {
            Pane::Main1 => "main1"@,
            Pane::Main2 => "main2"@,
            Pane::Main3 => "main3"@,
            Pane::Main4 => "main4"@,
            Pane::Control => "svelte_app"@,
        }
    }

    pub(crate) fn quadrant(i: usize) -> (pane: Pane)
        requires
            i < 4,
        ensures
            pane == Pane::at(i as int),
            pane.is_quadrant(),
            pane.index() == i,
    {
        if i == 0 {
            Pane::Main1
        } else if i == 1 {
            Pane::Main2
        } else if i == 2 {
            Pane::Main3
        } else {
            Pane::Main4
        }
    }

    /// The label under which the host window knows the pane.
    pub fn label(self) -> (text: &'static str)
        ensures
            text@ == self.label_text(),
    {
        match self {
            Pane::Main1 => "main1",
            Pane::Main2 => "main2",
            Pane::Main3 => "main3",
            Pane::Main4 => "main4",
            Pane::Control => "svelte_app",
        }
    }
}

} // verus!
