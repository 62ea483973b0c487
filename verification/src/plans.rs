//! The plans of the commands, as sequences of steps.
//!
//! Each command of `window_manager` returns exactly the plan that is written
//! down here. Where the plans lead a window is proved in `laws`.

use crate::geometry::{hidden_rect, placeholder_rect, quadrants, Rect, WindowSize};
use crate::host::{Step, WindowProbe};
use crate::layout_state::LayoutState;
use crate::pane::Pane;
use crate::workspace::{Reconciliation, TargetView};
use vstd::prelude::*;

verus! {

/// How long a fullscreen toggle lets the host settle, in milliseconds.
pub const SETTLE_MILLIS: u64 = 50;

/// Moves a pane to the corner of `rect`, then gives it the size of `rect`.
pub open spec fn place_steps(pane: Pane, rect: Rect) -> Seq<Step> {
    seq![
        Step::Move { pane, x: rect.x, y: rect.y },
        Step::Resize { pane, width: rect.width, height: rect.height },
    ]
}

/// Takes all extent from a pane, then moves it off screen.
pub open spec fn hide_steps(pane: Pane) -> Seq<Step> {
    seq![
        Step::Resize { pane, width: 0, height: 0 },
        Step::Move { pane, x: hidden_rect().x, y: hidden_rect().y },
    ]
}

/// The rectangle that covers a window of the given size.
pub open spec fn full_window(size: WindowSize) -> Rect {
    Rect { x: 0, y: 0, width: (2 * size.width) as i64, height: (2 * size.height) as i64 }
}

/// The sidebar column: `sidebar_width` wide and as high as the window.
pub open spec fn sidebar_column(size: WindowSize, sidebar_width: u32) -> Rect {
    Rect { x: 0, y: 0, width: (2 * sidebar_width) as i64, height: (2 * size.height) as i64 }
}

/// Places the first `count` quadrant panes, in grid order, on their quadrants.
pub open spec fn grid_steps_upto(size: WindowSize, sidebar_width: u32, count: nat) -> Seq<Step>
    decreases count,
{
    if count == 0 {
        Seq::empty()
    } else {
        grid_steps_upto(size, sidebar_width, (count - 1) as nat) + place_steps(
            Pane::at(count - 1),
            quadrants(size.width, size.height, sidebar_width)[count - 1],
        )
    }
}

/// Places all four quadrant panes on their quadrants.
pub open spec fn grid_steps(size: WindowSize, sidebar_width: u32) -> Seq<Step> {
    grid_steps_upto(size, sidebar_width, 4)
}

/// Hides the first `count` quadrant panes, in grid order.
pub open spec fn hide_steps_upto(count: nat) -> Seq<Step>
    decreases count,
{
    if count == 0 {
        Seq::empty()
    } else {
        hide_steps_upto((count - 1) as nat) + hide_steps(Pane::at(count - 1))
    }
}

/// The plan of a sidebar change: nothing while fullscreen, or while the window
/// or its size cannot be had; else the control pane takes the size of the
/// window and the grid is applied with the new width.
pub open spec fn sidebar_steps(fullscreen: bool, width: u32, window: Option<WindowProbe>) -> Seq<Step> {
    if !fullscreen && window is Some && window->0.size is Some {
        let size = window->0.size->0;
        seq![
            Step::Resize { pane: Pane::Control, width: full_window(size).width, height: full_window(size).height },
        ] + grid_steps(size, width)
    } else {
        Seq::empty()
    }
}

/// The plan of a fullscreen toggle. Without a window there is only the wait.
/// Entering fullscreen hides the four quadrant panes and lets the control pane
/// cover the window; leaving it gives the control pane the sidebar column and
/// applies the grid. Whatever needs the size of the window is left out where
/// the host reports none.
pub open spec fn fullscreen_steps(enabled: bool, sidebar_width: u32, window: Option<WindowProbe>) -> Seq<Step> {
    let changes = if window is None {
        Seq::empty()
    } else if enabled {
        hide_steps_upto(4) + if window->0.size is Some {
            place_steps(Pane::Control, full_window(window->0.size->0))
        } else {
            Seq::empty()
        }
    } else if window->0.size is Some {
        place_steps(Pane::Control, sidebar_column(window->0.size->0, sidebar_width)) + grid_steps(
            window->0.size->0,
            sidebar_width,
        )
    } else {
        Seq::empty()
    };
    changes.push(Step::Settle { millis: SETTLE_MILLIS })
}

/// The plan of a resize observer: the grid for the new size while not
/// fullscreen, else the control pane over the whole new window.
pub open spec fn resize_steps(state: LayoutState, size: WindowSize) -> Seq<Step> {
    if state.is_fullscreen {
        place_steps(Pane::Control, full_window(size))
    } else {
        grid_steps(size, state.sidebar_width)
    }
}

/// The page that a new pane shows when its workspace names no usable URL.
pub open spec fn blank_url() -> Seq<char> {
    "about:blank"@
}

/// The steps for one quadrant pane of a workspace switch.
///
/// A pane that exists is navigated where the target is a URL, and hidden
/// where the window is fullscreen. A pane that does not exist is created with
/// the URL, or with the blank page where there is none to use; it starts
/// hidden when fullscreen, else at the placeholder.
pub open spec fn pane_steps(pane: Pane, target: TargetView, exists: bool, fullscreen: bool) -> Seq<Step> {
    if exists {
        let navigation = if target is Open {
            seq![Step::Navigate { pane, url: target->0 }]
        } else {
            Seq::empty()
        };
        if fullscreen {
            navigation + hide_steps(pane)
        } else {
            navigation
        }
    } else {
        seq![
            Step::Create {
                pane,
                url: if target is Open {
                    target->0
                } else {
                    blank_url()
                },
                rect: if fullscreen {
                    hidden_rect()
                } else {
                    placeholder_rect()
                },
            },
        ]
    }
}

/// The steps for the first `count` quadrant panes, in grid order.
pub open spec fn panes_steps_upto(job: Reconciliation, window: WindowProbe, count: nat) -> Seq<Step>
    decreases count,
{
    if count == 0 {
        Seq::empty()
    } else {
        panes_steps_upto(job, window, (count - 1) as nat) + pane_steps(
            Pane::at(count - 1),
            job.targets.of(Pane::at(count - 1)),
            window.has(Pane::at(count - 1)),
            job.fullscreen,
        )
    }
}

/// The steps that follow the panes: while fullscreen the control pane covers
/// the window; else the grid is applied and the control pane takes the size of
/// the window. Without a window size there are none.
pub open spec fn arrange_steps(fullscreen: bool, sidebar_width: u32, size: Option<WindowSize>) -> Seq<Step> {
    if size is None {
        Seq::empty()
    } else if fullscreen {
        place_steps(Pane::Control, full_window(size->0))
    } else {
        grid_steps(size->0, sidebar_width).push(
            Step::Resize {
                pane: Pane::Control,
                width: full_window(size->0).width,
                height: full_window(size->0).height,
            },
        )
    }
}

/// The plan of a workspace switch. Without a window nothing is done at all.
/// With one, the four quadrant panes are handled in grid order, the layout is
/// arranged, and a resize observer is registered.
pub open spec fn reconcile_steps(job: Reconciliation, sidebar_width: u32, window: Option<WindowProbe>) -> Seq<
    Step,
> {
    match window {
        None => Seq::empty(),
        Some(probe) => (panes_steps_upto(job, probe, 4) + arrange_steps(
            job.fullscreen,
            sidebar_width,
            probe.size,
        )).push(Step::WatchResize),
    }
}

} // verus!
