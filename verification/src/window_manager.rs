//! The commands that change the layout: workspace switch, sidebar width,
//! fullscreen toggle, window resize.
//!
//! Each command updates the shared [`LayoutState`] where it has to and returns
//! the plan for the host window. Its contract states the plan step by step
//! and says where the plan leads any window that the caller's probe fits.

use crate::geometry::{compute_quadrants, quadrants, Rect, WindowSize};
use crate::host::{probe_of, run, steps_of, Action, HostView, WindowProbe};
use crate::json::parsed_document;
use crate::json_handler::{read_workspace, StoreError};
use crate::laws::{
    after_fullscreen, after_reconcile, after_resize, after_sidebar, gridded, lemma_fullscreen_effect,
    lemma_fullscreen_without_window, lemma_grid, lemma_reconcile_effect, lemma_resize_effect, lemma_sidebar_effect,
};
use crate::layout_state::LayoutState;
use crate::pane::Pane;
use crate::plans::{
    full_window, fullscreen_steps, grid_steps, grid_steps_upto, hide_steps, hide_steps_upto, pane_steps,
    panes_steps_upto, place_steps, reconcile_steps, resize_steps, sidebar_column, sidebar_steps, SETTLE_MILLIS,
};
use crate::workspace::{pane_url, pane_urls, resolve_targets, resolved, Reconciliation, Target};
use vstd::prelude::*;

verus! {

/// Adds one action to the end of a plan.
fn emit(plan: &mut Vec<Action>, action: Action)
    ensures
        steps_of(final(plan)@) == steps_of(old(plan)@).push(action@),
{
    plan.push(action);
    assert(steps_of(plan@) =~= steps_of(old(plan)@).push(action@));
}

/// Adds the two actions that put a pane on a rectangle.
fn place(plan: &mut Vec<Action>, pane: Pane, rect: Rect)
    ensures
        steps_of(final(plan)@) == steps_of(old(plan)@) + place_steps(pane, rect),
{
    emit(plan, Action::Move { pane, x: rect.x, y: rect.y });
    emit(plan, Action::Resize { pane, width: rect.width, height: rect.height });
    assert(steps_of(plan@) =~= steps_of(old(plan)@) + place_steps(pane, rect));
}

/// Adds the two actions that park a pane off screen.
fn conceal(plan: &mut Vec<Action>, pane: Pane)
    ensures
        steps_of(final(plan)@) == steps_of(old(plan)@) + hide_steps(pane),
{
    emit(plan, Action::Resize { pane, width: 0, height: 0 });
    emit(plan, Action::Move { pane, x: Rect::hidden().x, y: Rect::hidden().y });
    assert(steps_of(plan@) =~= steps_of(old(plan)@) + hide_steps(pane));
}

/// The rectangle that covers a window of the given size.
fn window_rect(size: WindowSize) -> (rect: Rect)
    ensures
        rect == full_window(size),
{
    Rect { x: 0, y: 0, width: 2 * (size.width as i64), height: 2 * (size.height as i64) }
}

/// The sidebar column of a window of the given size.
fn column_rect(size: WindowSize, sidebar_width: u32) -> (rect: Rect)
    ensures
        rect == sidebar_column(size, sidebar_width),
{
    Rect { x: 0, y: 0, width: 2 * (sidebar_width as i64), height: 2 * (size.height as i64) }
}

/// Adds the actions that park all four quadrant panes.
fn conceal_quadrants(plan: &mut Vec<Action>)
    ensures
        steps_of(final(plan)@) == steps_of(old(plan)@) + hide_steps_upto(4),
{
    let mut done: usize = 0;
    assert(steps_of(plan@) =~= steps_of(old(plan)@) + hide_steps_upto(0));
    while done < 4
        invariant
            done <= 4,
            steps_of(plan@) == steps_of(old(plan)@) + hide_steps_upto(done as nat),
        decreases 4 - done,
    {
        let ghost before = steps_of(plan@);
        conceal(plan, Pane::quadrant(done));
        assert(before + hide_steps(Pane::at(done as int)) =~= steps_of(old(plan)@) + hide_steps_upto(
            (done + 1) as nat,
        ));
        done = done + 1;
    }
}

/// Adds the actions that put all four quadrant panes on the grid.
fn lay_out_quadrants(plan: &mut Vec<Action>, size: WindowSize, sidebar_width: u32)
    ensures
        steps_of(final(plan)@) == steps_of(old(plan)@) + grid_steps(size, sidebar_width),
{
    let grid = compute_quadrants(size.width, size.height, sidebar_width);
    let mut done: usize = 0;
    assert(steps_of(plan@) =~= steps_of(old(plan)@) + grid_steps_upto(size, sidebar_width, 0));
    while done < 4
        invariant
            done <= 4,
            grid@ == quadrants(size.width, size.height, sidebar_width),
            steps_of(plan@) == steps_of(old(plan)@) + grid_steps_upto(size, sidebar_width, done as nat),
        decreases 4 - done,
    {
        let ghost before = steps_of(plan@);
        place(plan, Pane::quadrant(done), grid[done]);
        assert(before + place_steps(Pane::at(done as int), grid@[done as int]) =~= steps_of(old(plan)@)
            + grid_steps_upto(size, sidebar_width, (done + 1) as nat));
        done = done + 1;
    }
}

/// Plans the quadrant grid for a window of the given size, with the sidebar
/// width that the state holds: each quadrant pane is moved to its quadrant and
/// sized to it, in grid order.
pub fn apply_quadrant_layout(state: &LayoutState, size: WindowSize) -> (plan: Vec<Action>)
    ensures
        steps_of(plan@) == grid_steps(size, state.sidebar_width),
        forall|host: HostView| #[trigger] run(host, steps_of(plan@)) == gridded(host, size, state.sidebar_width),
{
    let mut plan: Vec<Action> = Vec::new();
    lay_out_quadrants(&mut plan, size, state.sidebar_width);
    assert(steps_of(plan@) =~= grid_steps(size, state.sidebar_width));
    assert forall|host: HostView| #[trigger]
        run(host, steps_of(plan@)) == gridded(host, size, state.sidebar_width) by {
        lemma_grid(host, size, state.sidebar_width);
    }
    plan
}

/// Records a new sidebar width. While fullscreen the width is only recorded,
/// and the plan is empty; else, where the window and its size can be had, the
/// control pane is resized to the window and the grid is applied at once.
pub fn update_sidebar_width(state: &mut LayoutState, width: u32, window: Option<WindowProbe>) -> (plan: Vec<Action>)
    ensures
        *final(state) == (LayoutState { sidebar_width: width, is_fullscreen: old(state).is_fullscreen }),
        steps_of(plan@) == sidebar_steps(old(state).is_fullscreen, width, window),
        forall|host: HostView|
            window == Some(probe_of(host)) ==> #[trigger] run(host, steps_of(plan@)) == after_sidebar(
                host,
                old(state).is_fullscreen,
                width,
            ),
{
    state.set_sidebar_width(width);
    let mut plan: Vec<Action> = Vec::new();
    assert(steps_of(plan@) =~= Seq::empty());
    if !state.is_fullscreen {
        if let Some(probe) = window {
            if let Some(size) = probe.size {
                let cover = window_rect(size);
                emit(&mut plan, Action::Resize { pane: Pane::Control, width: cover.width, height: cover.height });
                lay_out_quadrants(&mut plan, size, width);
                assert(steps_of(plan@) =~= sidebar_steps(state.is_fullscreen, width, window));
            }
        }
    }
    assert forall|host: HostView| window == Some(probe_of(host)) implies #[trigger] run(host, steps_of(plan@))
        == after_sidebar(host, old(state).is_fullscreen, width) by {
        lemma_sidebar_effect(host, old(state).is_fullscreen, width);
    }
    plan
}

/// Enters or leaves fullscreen. The flag is recorded first; the plan then
/// hides the quadrant panes and spreads the control pane over the window, or
/// brings the control pane back to the sidebar column and applies the grid.
/// The plan always ends with the wait that lets the host settle.
pub fn toggle_fullscreen(state: &mut LayoutState, fullscreen: bool, window: Option<WindowProbe>) -> (plan: Vec<
    Action,
>)
    ensures
        *final(state) == (LayoutState { sidebar_width: old(state).sidebar_width, is_fullscreen: fullscreen }),
        steps_of(plan@) == fullscreen_steps(fullscreen, old(state).sidebar_width, window),
        window is None ==> forall|host: HostView| #[trigger] run(host, steps_of(plan@)) == host,
        forall|host: HostView|
            window == Some(probe_of(host)) ==> #[trigger] run(host, steps_of(plan@)) == after_fullscreen(
                host,
                fullscreen,
                old(state).sidebar_width,
            ),
{
    state.set_fullscreen(fullscreen);
    let mut plan: Vec<Action> = Vec::new();
    assert(steps_of(plan@) =~= Seq::empty());
    if let Some(probe) = window {
        if fullscreen {
            conceal_quadrants(&mut plan);
            if let Some(size) = probe.size {
                place(&mut plan, Pane::Control, window_rect(size));
            }
        } else {
            if let Some(size) = probe.size {
                place(&mut plan, Pane::Control, column_rect(size, state.sidebar_width));
                lay_out_quadrants(&mut plan, size, state.sidebar_width);
            }
        }
    }
    emit(&mut plan, Action::Settle { millis: SETTLE_MILLIS });
    assert(steps_of(plan@) =~= fullscreen_steps(fullscreen, old(state).sidebar_width, window));
    assert forall|host: HostView| window is None implies #[trigger] run(host, steps_of(plan@)) == host by {
        lemma_fullscreen_without_window(host, fullscreen, old(state).sidebar_width);
    }
    assert forall|host: HostView| window == Some(probe_of(host)) implies #[trigger] run(host, steps_of(plan@))
        == after_fullscreen(host, fullscreen, old(state).sidebar_width) by {
        lemma_fullscreen_effect(host, fullscreen, old(state).sidebar_width);
    }
    plan
}

/// What a resize observer does when the window reports a new size. It reads
/// the fullscreen flag afresh: while not fullscreen the grid is applied for
/// the new size, else only the control pane is spread over the new window.
pub fn on_window_resized(state: &LayoutState, size: WindowSize) -> (plan: Vec<Action>)
    ensures
        steps_of(plan@) == resize_steps(*state, size),
        forall|host: HostView| #[trigger] run(host, steps_of(plan@)) == after_resize(host, *state, size),
{
    let mut plan: Vec<Action> = Vec::new();
    assert(steps_of(plan@) =~= Seq::empty());
    if state.is_fullscreen {
        place(&mut plan, Pane::Control, window_rect(size));
    } else {
        lay_out_quadrants(&mut plan, size, state.sidebar_width);
    }
    assert(steps_of(plan@) =~= resize_steps(*state, size));
    assert forall|host: HostView| #[trigger] run(host, steps_of(plan@)) == after_resize(host, *state, size) by {
        lemma_resize_effect(host, *state, size);
    }
    plan
}

/// Adds the actions of a workspace switch for one quadrant pane.
fn reconcile_pane(plan: &mut Vec<Action>, pane: Pane, target: &Target, exists: bool, fullscreen: bool)
    ensures
        steps_of(final(plan)@) == steps_of(old(plan)@) + pane_steps(pane, target@, exists, fullscreen),
{
    if exists {
        if let Target::Open(url) = target {
            emit(plan, Action::Navigate { pane, url: url.clone() });
        }
        if fullscreen {
            conceal(plan, pane);
        }
    } else {
        let url = match target {
            Target::Open(url) => url.clone(),
            _ => "about:blank".to_owned(),
        };
        let rect = if fullscreen {
            Rect::hidden()
        } else {
            Rect::placeholder()
        };
        emit(plan, Action::Create { pane, url, rect });
    }
    assert(steps_of(plan@) =~= steps_of(old(plan)@) + pane_steps(pane, target@, exists, fullscreen));
}

/// Starts a workspace switch: finds the workspace in the text of the store,
/// decides the target of each quadrant pane, and notes the fullscreen flag.
///
/// Only the lookup can fail. What comes back is handed to [`reconcile`],
/// which plans the work on the window.
pub fn load_workspace(store_text: &str, layout_name: &str, state: &LayoutState) -> (started: Result<
    Reconciliation,
    StoreError,
>)
    ensures
        match parsed_document(store_text@) {
            None => started matches Err(StoreError::Parse { .. }),
            Some(all) => match all.member(layout_name@) {
                None => started matches Err(StoreError::WorkspaceNotFound { name }) && name@ == layout_name@,
                Some(workspace) => started matches Ok(job) && job.fullscreen == state.is_fullscreen && forall|
                    pane: Pane,
                |
                    pane.is_quadrant() ==> #[trigger] job.targets.of(pane) == resolved(pane_url(workspace, pane)),
            },
        },
{
    match read_workspace(store_text, layout_name) {
        Ok(workspace) => {
            let config = pane_urls(&workspace);
            let targets = resolve_targets(&config);
            Ok(Reconciliation { targets, fullscreen: state.is_fullscreen })
        },
        Err(error) => Err(error),
    }
}

/// Plans a workspace switch on the window as the caller found it.
///
/// `sidebar_width` is the width that the layout state holds when the plan is
/// made; the fullscreen flag is the one that `job` carries.
pub fn reconcile(job: &Reconciliation, sidebar_width: u32, window: Option<WindowProbe>) -> (plan: Vec<Action>)
    ensures
        steps_of(plan@) == reconcile_steps(*job, sidebar_width, window),
        window is None ==> plan@.len() == 0,
        forall|host: HostView|
            window == Some(probe_of(host)) ==> #[trigger] run(host, steps_of(plan@)) == after_reconcile(
                host,
                *job,
                sidebar_width,
            ),
{
    let mut plan: Vec<Action> = Vec::new();
    assert(steps_of(plan@) =~= Seq::empty());
    if let Some(probe) = window {
        let mut done: usize = 0;
        assert(steps_of(plan@) =~= panes_steps_upto(*job, probe, 0));
        while done < 4
            invariant
                done <= 4,
                steps_of(plan@) == panes_steps_upto(*job, probe, done as nat),
            decreases 4 - done,
        {
            let pane = Pane::quadrant(done);
            reconcile_pane(&mut plan, pane, job.targets.at(done), probe.holds(pane), job.fullscreen);
            done = done + 1;
        }
        if let Some(size) = probe.size {
            if job.fullscreen {
                place(&mut plan, Pane::Control, window_rect(size));
            } else {
                lay_out_quadrants(&mut plan, size, sidebar_width);
                let cover = window_rect(size);
                emit(&mut plan, Action::Resize { pane: Pane::Control, width: cover.width, height: cover.height });
            }
        }
        emit(&mut plan, Action::WatchResize);
        assert(steps_of(plan@) =~= reconcile_steps(*job, sidebar_width, window));
    }
    assert forall|host: HostView| window == Some(probe_of(host)) implies #[trigger] run(host, steps_of(plan@))
        == after_reconcile(host, *job, sidebar_width) by {
        lemma_reconcile_effect(host, *job, sidebar_width);
    }
    plan
}

} // verus!
