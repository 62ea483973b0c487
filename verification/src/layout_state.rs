//! The layout state that all commands share.

use vstd::prelude::*;

verus! {

/// Sidebar width and fullscreen flag.
///
/// The library owns no global: the caller keeps one value of this type for
/// the life of the process, behind whatever lock it needs, and hands it to
/// each command.
#[derive(Clone, Copy, Debug, PartialEq, Eq, Structural)]
pub struct LayoutState {
    /// Width of the sidebar strip, in whole pixels.
    pub sidebar_width: u32,
    /// Whether the control pane covers the whole window.
    pub is_fullscreen: bool,
}

impl LayoutState {
    /// The state at process start: a sidebar 64 pixels wide, not fullscreen.
    pub open spec fn initial() -> LayoutState {
        LayoutState { sidebar_width: 64, is_fullscreen: false }
    }

    /// The state at process start.
    pub fn new() -> (state: LayoutState)
        ensures
            state == LayoutState::initial(),
    {
        LayoutState { sidebar_width: 64, is_fullscreen: false }
    }

    /// Reads both fields.
    pub fn get(&self) -> (pair: (u32, bool))
        ensures
            pair == (self.sidebar_width, self.is_fullscreen),
    {
        (self.sidebar_width, self.is_fullscreen)
    }

    /// Records a new sidebar width and leaves the fullscreen flag alone.
    pub fn set_sidebar_width(&mut self, width: u32)
        ensures
            *final(self) == (LayoutState { sidebar_width: width, is_fullscreen: old(self).is_fullscreen }),
    {
        self.sidebar_width = width;
    }

    /// Records the fullscreen flag and leaves the sidebar width alone.
    pub fn set_fullscreen(&mut self, enabled: bool)
        ensures
            *final(self) == (LayoutState { sidebar_width: old(self).sidebar_width, is_fullscreen: enabled }),
    {
        self.is_fullscreen = enabled;
    }
}

impl Default for LayoutState {
    fn default() -> (state: LayoutState)
        ensures
            state == LayoutState::initial(),
    {
        LayoutState::new()
    }
}

} // verus!
