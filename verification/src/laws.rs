//! What the plans do to a window, and the laws that follow.
//!
//! The commands state their plans step by step. The lemmas here run those
//! plans on the model of the host window and say where each pane ends up.

use crate::geometry::{
    content_area, cover_count, hidden_rect, lemma_quadrants_tile_content_area, placeholder_rect, quadrants, Rect,
    WindowSize,
};
use crate::host::{
    apply_step, lemma_run_concat, lemma_run_one, lemma_run_push, lemma_run_two, probe_of, run, HostView, PaneView,
    Step,
};
use crate::layout_state::LayoutState;
use crate::pane::Pane;
use crate::plans::{
    arrange_steps, blank_url, full_window, fullscreen_steps, grid_steps, grid_steps_upto, hide_steps,
    hide_steps_upto, pane_steps, panes_steps_upto, place_steps, reconcile_steps, resize_steps, sidebar_column,
    sidebar_steps, SETTLE_MILLIS,
};
use crate::workspace::{Reconciliation, TargetView};
use vstd::prelude::*;

verus! {

/// The window with every quadrant pane that it holds parked off screen, with
/// no extent.
pub open spec fn parked(host: HostView) -> HostView {
    host.with_panes(
        Map::new(
            |pane: Pane| host.has(pane),
            |pane: Pane|
                if pane.is_quadrant() {
                    PaneView { rect: hidden_rect(), url: host.panes[pane].url }
                } else {
                    host.panes[pane]
                },
        ),
    )
}

/// The window with every quadrant pane that it holds on its quadrant of the
/// grid for the given window size and sidebar width.
pub open spec fn gridded(host: HostView, size: WindowSize, sidebar_width: u32) -> HostView {
    host.with_panes(
        Map::new(
            |pane: Pane| host.has(pane),
            |pane: Pane|
                if pane.is_quadrant() {
                    PaneView {
                        rect: quadrants(size.width, size.height, sidebar_width)[pane.index()],
                        url: host.panes[pane].url,
                    }
                } else {
                    host.panes[pane]
                },
        ),
    )
}

/// Placing a pane puts it at the rectangle, if the window holds it.
pub proof fn lemma_place(host: HostView, pane: Pane, rect: Rect)
    ensures
        run(host, place_steps(pane, rect)) == host.with_rect(pane, rect),
{
    lemma_run_two(
        host,
        Step::Move { pane, x: rect.x, y: rect.y },
        Step::Resize { pane, width: rect.width, height: rect.height },
    );
    assert(run(host, place_steps(pane, rect)).panes =~= host.with_rect(pane, rect).panes);
}

/// Hiding a pane parks it, if the window holds it.
pub proof fn lemma_hide(host: HostView, pane: Pane)
    ensures
        run(host, hide_steps(pane)) == host.with_rect(pane, hidden_rect()),
{
    lemma_run_two(
        host,
        Step::Resize { pane, width: 0, height: 0 },
        Step::Move { pane, x: hidden_rect().x, y: hidden_rect().y },
    );
    assert(run(host, hide_steps(pane)).panes =~= host.with_rect(pane, hidden_rect()).panes);
}

/// Hiding the four quadrant panes parks each one that the window holds and
/// changes nothing else.
pub proof fn lemma_hide_all(host: HostView)
    ensures
        run(host, hide_steps_upto(4)) == parked(host),
{
    reveal_with_fuel(hide_steps_upto, 5);
    let h0 = host;
    let h1 = h0.with_rect(Pane::Main1, hidden_rect());
    let h2 = h1.with_rect(Pane::Main2, hidden_rect());
    let h3 = h2.with_rect(Pane::Main3, hidden_rect());
    let h4 = h3.with_rect(Pane::Main4, hidden_rect());
    assert(hide_steps_upto(0) =~= Seq::empty());
    lemma_run_concat(host, hide_steps_upto(0), hide_steps(Pane::Main1));
    lemma_hide(h0, Pane::Main1);
    lemma_run_concat(host, hide_steps_upto(1), hide_steps(Pane::Main2));
    lemma_hide(h1, Pane::Main2);
    lemma_run_concat(host, hide_steps_upto(2), hide_steps(Pane::Main3));
    lemma_hide(h2, Pane::Main3);
    lemma_run_concat(host, hide_steps_upto(3), hide_steps(Pane::Main4));
    lemma_hide(h3, Pane::Main4);
    assert(run(host, hide_steps_upto(4)) == h4);
    assert(h4.panes =~= parked(host).panes);
}

/// Applying the grid puts each quadrant pane that the window holds on its
/// quadrant and changes nothing else.
pub proof fn lemma_grid(host: HostView, size: WindowSize, sidebar_width: u32)
    ensures
        run(host, grid_steps(size, sidebar_width)) == gridded(host, size, sidebar_width),
{
    reveal_with_fuel(grid_steps_upto, 5);
    let grid = quadrants(size.width, size.height, sidebar_width);
    let h0 = host;
    let h1 = h0.with_rect(Pane::Main1, grid[0]);
    let h2 = h1.with_rect(Pane::Main2, grid[1]);
    let h3 = h2.with_rect(Pane::Main3, grid[2]);
    let h4 = h3.with_rect(Pane::Main4, grid[3]);
    assert(grid_steps_upto(size, sidebar_width, 0) =~= Seq::empty());
    lemma_run_concat(host, grid_steps_upto(size, sidebar_width, 0), place_steps(Pane::Main1, grid[0]));
    lemma_place(h0, Pane::Main1, grid[0]);
    lemma_run_concat(host, grid_steps_upto(size, sidebar_width, 1), place_steps(Pane::Main2, grid[1]));
    lemma_place(h1, Pane::Main2, grid[1]);
    lemma_run_concat(host, grid_steps_upto(size, sidebar_width, 2), place_steps(Pane::Main3, grid[2]));
    lemma_place(h2, Pane::Main3, grid[2]);
    lemma_run_concat(host, grid_steps_upto(size, sidebar_width, 3), place_steps(Pane::Main4, grid[3]));
    lemma_place(h3, Pane::Main4, grid[3]);
    assert(run(host, grid_steps(size, sidebar_width)) == h4);
    assert(h4.panes =~= gridded(host, size, sidebar_width).panes);
}

/// Where a fullscreen toggle leaves a window.
///
/// Entering fullscreen parks the quadrant panes and, where the window has a
/// size, spreads the control pane over it. Leaving fullscreen, where the
/// window has a size, puts the control pane on the sidebar column and the
/// quadrant panes on the grid; a window without a size is left as it is.
pub open spec fn after_fullscreen(host: HostView, enabled: bool, sidebar_width: u32) -> HostView {
    if enabled {
        if host.size is Some {
            parked(host).with_rect(Pane::Control, full_window(host.size->0))
        } else {
            parked(host)
        }
    } else {
        if host.size is Some {
            gridded(
                host.with_rect(Pane::Control, sidebar_column(host.size->0, sidebar_width)),
                host.size->0,
                sidebar_width,
            )
        } else {
            host
        }
    }
}

/// Whether every quadrant pane that the window holds is parked off screen
/// with no extent.
pub open spec fn quadrants_parked(host: HostView) -> bool {
    forall|pane: Pane| pane.is_quadrant() && #[trigger] host.has(pane) ==> host.panes[pane].rect == hidden_rect()
}

/// Whether every quadrant pane that the window holds sits on its quadrant of
/// the grid for the given window size and sidebar width.
pub open spec fn quadrants_on_grid(host: HostView, size: WindowSize, sidebar_width: u32) -> bool {
    forall|pane: Pane|
        pane.is_quadrant() && #[trigger] host.has(pane) ==> host.panes[pane].rect == quadrants(
            size.width,
            size.height,
            sidebar_width,
        )[pane.index()]
}

/// Whether all quadrant panes that the window holds have the same size.
pub open spec fn quadrants_alike(host: HostView) -> bool {
    forall|one: Pane, other: Pane|
        one.is_quadrant() && other.is_quadrant() && #[trigger] host.has(one) && #[trigger] host.has(other)
            ==> host.panes[one].rect.same_size(host.panes[other].rect)
}

/// The layout invariant. In fullscreen every quadrant pane that the window
/// holds is parked. Out of fullscreen, in a window with a size, every quadrant
/// pane that the window holds sits on its quadrant of the grid for that size
/// and the sidebar width of the state.
pub open spec fn layout_holds(host: HostView, state: LayoutState) -> bool {
    if state.is_fullscreen {
        quadrants_parked(host)
    } else {
        host.size is Some ==> quadrants_on_grid(host, host.size->0, state.sidebar_width)
    }
}

/// How many of the four quadrant panes of the window hold the point
/// `(px, py)`. A pane that the window lacks holds no point.
pub open spec fn panes_covering(host: HostView, px: int, py: int) -> int {
    pane_hits(host, Pane::Main1, px, py) + pane_hits(host, Pane::Main2, px, py) + pane_hits(
        host,
        Pane::Main3,
        px,
        py,
    ) + pane_hits(host, Pane::Main4, px, py)
}

/// 1 if the window holds the pane and the pane holds the point, else 0.
pub open spec fn pane_hits(host: HostView, pane: Pane, px: int, py: int) -> int {
    if host.has(pane) {
        host.panes[pane].rect.hits(px, py)
    } else {
        0
    }
}

/// While the layout invariant holds, the quadrant panes that the window
/// holds all have the same size, provided the window is fullscreen or has a
/// size. Out of fullscreen, in a window with a size that holds all four, they
/// tile the content area: every point of it lies in exactly one pane, and
/// every other point in none.
pub proof fn lemma_layout_tiles_content_area(host: HostView, state: LayoutState)
    requires
        layout_holds(host, state),
    ensures
        state.is_fullscreen || host.size is Some ==> quadrants_alike(host),
        !state.is_fullscreen && host.size is Some && host.has(Pane::Main1) && host.has(Pane::Main2) && host.has(
            Pane::Main3,
        ) && host.has(Pane::Main4) ==> forall|px: int, py: int|
            #[trigger] panes_covering(host, px, py) == content_area(
                host.size->0.width,
                host.size->0.height,
                state.sidebar_width,
            ).hits(px, py),
{
    if !state.is_fullscreen && host.size is Some {
        let size = host.size->0;
        lemma_quadrants_tile_content_area(size.width, size.height, state.sidebar_width);
        let grid = quadrants(size.width, size.height, state.sidebar_width);
        if host.has(Pane::Main1) && host.has(Pane::Main2) && host.has(Pane::Main3) && host.has(Pane::Main4) {
            assert forall|px: int, py: int| #[trigger]
                panes_covering(host, px, py) == content_area(size.width, size.height, state.sidebar_width).hits(
                    px,
                    py,
                ) by {
                assert(panes_covering(host, px, py) == cover_count(grid, px, py));
            }
        }
    }
}

/// A fullscreen toggle, planned for a window and carried out on it, leaves
/// the window as `after_fullscreen` says. In fullscreen all quadrant panes are
/// parked; out of it, in a window with a size, they sit on the grid and the
/// control pane on the sidebar column. Either way the quadrant panes end up
/// with one and the same size.
pub proof fn lemma_fullscreen_effect(host: HostView, enabled: bool, sidebar_width: u32)
    ensures
        run(host, fullscreen_steps(enabled, sidebar_width, Some(probe_of(host)))) == after_fullscreen(
            host,
            enabled,
            sidebar_width,
        ),
        enabled ==> quadrants_parked(after_fullscreen(host, enabled, sidebar_width)),
        !enabled && host.size is Some ==> quadrants_on_grid(
            after_fullscreen(host, enabled, sidebar_width),
            host.size->0,
            sidebar_width,
        ),
        !enabled && host.size is Some && host.has(Pane::Control) ==> after_fullscreen(
            host,
            enabled,
            sidebar_width,
        ).panes[Pane::Control].rect == sidebar_column(host.size->0, sidebar_width),
        enabled || host.size is Some ==> quadrants_alike(after_fullscreen(host, enabled, sidebar_width)),
        layout_holds(
            after_fullscreen(host, enabled, sidebar_width),
            LayoutState { sidebar_width, is_fullscreen: enabled },
        ),
{
    let settle = Step::Settle { millis: SETTLE_MILLIS };
    if enabled {
        lemma_hide_all(host);
        if host.size is Some {
            let cover = place_steps(Pane::Control, full_window(host.size->0));
            lemma_run_concat(host, hide_steps_upto(4), cover);
            lemma_place(parked(host), Pane::Control, full_window(host.size->0));
            lemma_run_push(host, hide_steps_upto(4) + cover, settle);
        } else {
            assert(hide_steps_upto(4) + Seq::<Step>::empty() =~= hide_steps_upto(4));
            lemma_run_push(host, hide_steps_upto(4), settle);
        }
    } else {
        if host.size is Some {
            let size = host.size->0;
            let column = place_steps(Pane::Control, sidebar_column(size, sidebar_width));
            lemma_place(host, Pane::Control, sidebar_column(size, sidebar_width));
            lemma_run_concat(host, column, grid_steps(size, sidebar_width));
            lemma_grid(host.with_rect(Pane::Control, sidebar_column(size, sidebar_width)), size, sidebar_width);
            lemma_run_push(host, column + grid_steps(size, sidebar_width), settle);
        } else {
            lemma_run_push(host, Seq::empty(), settle);
        }
    }
}

/// Without a window a fullscreen toggle only waits: the plan changes no
/// window.
pub proof fn lemma_fullscreen_without_window(host: HostView, enabled: bool, sidebar_width: u32)
    ensures
        run(host, fullscreen_steps(enabled, sidebar_width, None)) == host,
{
    lemma_run_push(host, Seq::empty(), Step::Settle { millis: SETTLE_MILLIS });
}

/// Toggling fullscreen to the same state twice in a row leaves the window
/// exactly where toggling once leaves it.
pub proof fn lemma_fullscreen_twice_is_once(host: HostView, enabled: bool, sidebar_width: u32)
    ensures
        ({
            let once = run(host, fullscreen_steps(enabled, sidebar_width, Some(probe_of(host))));
            let twice = run(once, fullscreen_steps(enabled, sidebar_width, Some(probe_of(once))));
            twice == once
        }),
{
    let once = after_fullscreen(host, enabled, sidebar_width);
    lemma_fullscreen_effect(host, enabled, sidebar_width);
    lemma_fullscreen_effect(once, enabled, sidebar_width);
    assert(after_fullscreen(once, enabled, sidebar_width).panes =~= once.panes);
}

/// Where a sidebar change leaves a window: while fullscreen, or without a
/// window size, as it is; else the control pane has the size of the window
/// and the quadrant panes sit on the grid for the new width.
pub open spec fn after_sidebar(host: HostView, fullscreen: bool, width: u32) -> HostView {
    if !fullscreen && host.size is Some {
        gridded(
            host.with_extent(
                Pane::Control,
                full_window(host.size->0).width,
                full_window(host.size->0).height,
            ),
            host.size->0,
            width,
        )
    } else {
        host
    }
}

/// A sidebar change, planned for a window and carried out on it, leaves the
/// window as `after_sidebar` says. While fullscreen nothing moves; else, in a
/// window with a size, the quadrant panes sit on the grid for the new width.
pub proof fn lemma_sidebar_effect(host: HostView, fullscreen: bool, width: u32)
    ensures
        run(host, sidebar_steps(fullscreen, width, Some(probe_of(host)))) == after_sidebar(host, fullscreen, width),
        fullscreen ==> after_sidebar(host, fullscreen, width) == host,
        !fullscreen && host.size is Some ==> quadrants_on_grid(
            after_sidebar(host, fullscreen, width),
            host.size->0,
            width,
        ) && quadrants_alike(after_sidebar(host, fullscreen, width)),
{
    if !fullscreen && host.size is Some {
        let size = host.size->0;
        let cover = Step::Resize {
            pane: Pane::Control,
            width: full_window(size).width,
            height: full_window(size).height,
        };
        lemma_run_one(host, cover);
        lemma_run_concat(host, seq![cover], grid_steps(size, width));
        lemma_grid(apply_step(host, cover), size, width);
    }
}

/// A sidebar change keeps the layout invariant: if it held of the window and
/// the state before, it holds of the window after the plan and the state with
/// the new width.
pub proof fn lemma_sidebar_keeps_layout(host: HostView, state: LayoutState, width: u32)
    requires
        layout_holds(host, state),
    ensures
        layout_holds(
            run(host, sidebar_steps(state.is_fullscreen, width, Some(probe_of(host)))),
            LayoutState { sidebar_width: width, is_fullscreen: state.is_fullscreen },
        ),
{
    lemma_sidebar_effect(host, state.is_fullscreen, width);
}

/// Where the work of a resize observer leaves a window that reports `size`:
/// while fullscreen the control pane covers the window, else the quadrant
/// panes sit on the grid for that size.
pub open spec fn after_resize(host: HostView, state: LayoutState, size: WindowSize) -> HostView {
    if state.is_fullscreen {
        host.with_rect(Pane::Control, full_window(size))
    } else {
        gridded(host, size, state.sidebar_width)
    }
}

/// The plan of a resize observer, carried out on a window, leaves the window
/// as `after_resize` says. Out of fullscreen the quadrant panes then sit on
/// the grid for the new size; in fullscreen no quadrant pane moves.
pub proof fn lemma_resize_effect(host: HostView, state: LayoutState, size: WindowSize)
    ensures
        run(host, resize_steps(state, size)) == after_resize(host, state, size),
        !state.is_fullscreen ==> quadrants_on_grid(after_resize(host, state, size), size, state.sidebar_width)
            && quadrants_alike(after_resize(host, state, size)),
        state.is_fullscreen ==> forall|pane: Pane|
            pane.is_quadrant() ==> after_resize(host, state, size).has(pane) == host.has(pane) && (host.has(pane)
                ==> #[trigger] after_resize(host, state, size).panes[pane] == host.panes[pane]),
{
    if state.is_fullscreen {
        lemma_place(host, Pane::Control, full_window(size));
    } else {
        lemma_grid(host, size, state.sidebar_width);
    }
}

/// A resize keeps the layout invariant: if it held before the window took its
/// new size, it holds again once the plan of the resize observer is carried
/// out.
pub proof fn lemma_resize_keeps_layout(host: HostView, state: LayoutState, size: WindowSize)
    requires
        layout_holds(host, state),
    ensures
        layout_holds(run(host.resized(Some(size)), resize_steps(state, size)), state),
{
    let reported = host.resized(Some(size));
    lemma_resize_effect(reported, state, size);
    if state.is_fullscreen {
        let after = after_resize(reported, state, size);
        assert forall|pane: Pane| pane.is_quadrant() && #[trigger] after.has(pane) implies after.panes[pane].rect
            == hidden_rect() by {
            assert(host.has(pane));
        }
    }
}

/// What a quadrant pane shows after its part of a workspace switch.
///
/// It shows the URL of the target; without one to use, a pane that existed
/// keeps its page and a new pane shows the blank page. In fullscreen it is
/// parked; else a pane that existed stays where it is and a new pane starts at
/// the placeholder.
pub open spec fn reconciled_pane(host: HostView, pane: Pane, target: TargetView, fullscreen: bool) -> PaneView {
    PaneView {
        rect: if fullscreen {
            hidden_rect()
        } else if host.has(pane) {
            host.panes[pane].rect
        } else {
            placeholder_rect()
        },
        url: if target is Open {
            target->0
        } else if host.has(pane) {
            host.panes[pane].url
        } else {
            blank_url()
        },
    }
}

/// The window after the four quadrant panes had their part of a workspace
/// switch: it holds every quadrant pane that it held before or was willing to
/// create, each as `reconciled_pane` says.
pub open spec fn with_panes_reconciled(host: HostView, job: Reconciliation) -> HostView {
    host.with_panes(
        Map::new(
            |pane: Pane| host.has(pane) || (pane.is_quadrant() && host.admits(pane)),
            |pane: Pane|
                if pane.is_quadrant() {
                    reconciled_pane(host, pane, job.targets.of(pane), job.fullscreen)
                } else {
                    host.panes[pane]
                },
        ),
    )
}

/// The window after the layout was arranged at the end of a workspace switch.
pub open spec fn arranged(host: HostView, fullscreen: bool, sidebar_width: u32) -> HostView {
    if host.size is None {
        host
    } else if fullscreen {
        host.with_rect(Pane::Control, full_window(host.size->0))
    } else {
        gridded(host, host.size->0, sidebar_width).with_extent(
            Pane::Control,
            full_window(host.size->0).width,
            full_window(host.size->0).height,
        )
    }
}

/// Where a workspace switch leaves a window.
pub open spec fn after_reconcile(host: HostView, job: Reconciliation, sidebar_width: u32) -> HostView {
    arranged(with_panes_reconciled(host, job), job.fullscreen, sidebar_width).watched()
}

/// The steps for one pane, carried out on a window, leave that pane as
/// `reconciled_pane` says and every other pane as it was. A window that
/// lacks the pane and refuses to create it stays as it is.
pub proof fn lemma_pane(host: HostView, pane: Pane, target: TargetView, fullscreen: bool)
    ensures
        run(host, pane_steps(pane, target, host.has(pane), fullscreen)) == if host.has(pane) || host.admits(pane) {
            host.with_pane(pane, reconciled_pane(host, pane, target, fullscreen))
        } else {
            host
        },
{
    let end = host.with_pane(pane, reconciled_pane(host, pane, target, fullscreen));
    if host.has(pane) {
        let navigation = if target is Open {
            seq![Step::Navigate { pane, url: target->0 }]
        } else {
            Seq::empty()
        };
        let navigated = if target is Open {
            host.with_url(pane, target->0)
        } else {
            host
        };
        if target is Open {
            lemma_run_one(host, Step::Navigate { pane, url: target->0 });
        }
        assert(run(host, navigation) == navigated);
        if fullscreen {
            lemma_run_concat(host, navigation, hide_steps(pane));
            lemma_hide(navigated, pane);
            assert(navigated.with_rect(pane, hidden_rect()).panes =~= end.panes);
        } else {
            assert(navigated.panes =~= end.panes);
        }
    } else {
        lemma_run_one(
            host,
            Step::Create {
                pane,
                url: if target is Open {
                    target->0
                } else {
                    blank_url()
                },
                rect: if fullscreen {
                    hidden_rect()
                } else {
                    placeholder_rect()
                },
            },
        );
    }
}

/// The steps for the four quadrant panes, planned for a window and carried
/// out on it, leave the window as `with_panes_reconciled` says.
pub proof fn lemma_panes(host: HostView, job: Reconciliation)
    ensures
        run(host, panes_steps_upto(job, probe_of(host), 4)) == with_panes_reconciled(host, job),
{
    reveal_with_fuel(panes_steps_upto, 5);
    let probe = probe_of(host);
    let fullscreen = job.fullscreen;
    let h0 = host;
    let h1 = run(h0, pane_steps(Pane::Main1, job.targets.of(Pane::Main1), h0.has(Pane::Main1), fullscreen));
    lemma_pane(h0, Pane::Main1, job.targets.of(Pane::Main1), fullscreen);
    let h2 = run(h1, pane_steps(Pane::Main2, job.targets.of(Pane::Main2), h1.has(Pane::Main2), fullscreen));
    lemma_pane(h1, Pane::Main2, job.targets.of(Pane::Main2), fullscreen);
    let h3 = run(h2, pane_steps(Pane::Main3, job.targets.of(Pane::Main3), h2.has(Pane::Main3), fullscreen));
    lemma_pane(h2, Pane::Main3, job.targets.of(Pane::Main3), fullscreen);
    let h4 = run(h3, pane_steps(Pane::Main4, job.targets.of(Pane::Main4), h3.has(Pane::Main4), fullscreen));
    lemma_pane(h3, Pane::Main4, job.targets.of(Pane::Main4), fullscreen);
    assert(panes_steps_upto(job, probe, 0) =~= Seq::empty());
    lemma_run_concat(
        host,
        panes_steps_upto(job, probe, 0),
        pane_steps(Pane::Main1, job.targets.of(Pane::Main1), probe.has(Pane::Main1), fullscreen),
    );
    lemma_run_concat(
        host,
        panes_steps_upto(job, probe, 1),
        pane_steps(Pane::Main2, job.targets.of(Pane::Main2), probe.has(Pane::Main2), fullscreen),
    );
    lemma_run_concat(
        host,
        panes_steps_upto(job, probe, 2),
        pane_steps(Pane::Main3, job.targets.of(Pane::Main3), probe.has(Pane::Main3), fullscreen),
    );
    lemma_run_concat(
        host,
        panes_steps_upto(job, probe, 3),
        pane_steps(Pane::Main4, job.targets.of(Pane::Main4), probe.has(Pane::Main4), fullscreen),
    );
    assert(run(host, panes_steps_upto(job, probe, 4)) == h4);
    assert(h4.panes =~= with_panes_reconciled(host, job).panes);
}

/// The steps that arrange the layout, carried out on a window, leave it as
/// `arranged` says.
pub proof fn lemma_arrange(host: HostView, fullscreen: bool, sidebar_width: u32)
    ensures
        run(host, arrange_steps(fullscreen, sidebar_width, host.size)) == arranged(host, fullscreen, sidebar_width),
{
    if host.size is Some {
        let size = host.size->0;
        if fullscreen {
            lemma_place(host, Pane::Control, full_window(size));
        } else {
            lemma_grid(host, size, sidebar_width);
            lemma_run_push(
                host,
                grid_steps(size, sidebar_width),
                Step::Resize {
                    pane: Pane::Control,
                    width: full_window(size).width,
                    height: full_window(size).height,
                },
            );
        }
    }
}

/// A workspace switch, planned for a window and carried out on it, leaves the
/// window as `after_reconcile` says.
///
/// Afterwards the window holds every quadrant pane that it held before or was
/// willing to create; a pane that it refuses is passed over, and the others
/// are handled all the same. Each pane shows the URL of its target; without
/// one to use, a pane that existed keeps its page and a new pane shows the
/// blank page. In fullscreen the quadrant panes are parked;
/// out of it, in a window with a size, they sit on the grid. The control pane
/// is neither added nor removed, and one more resize observer is registered.
pub proof fn lemma_reconcile_effect(host: HostView, job: Reconciliation, sidebar_width: u32)
    ensures
        run(host, reconcile_steps(job, sidebar_width, Some(probe_of(host)))) == after_reconcile(
            host,
            job,
            sidebar_width,
        ),
        forall|pane: Pane|
            pane.is_quadrant() ==> #[trigger] after_reconcile(host, job, sidebar_width).has(pane) == (host.has(pane)
                || host.admits(pane)),
        forall|pane: Pane|
            pane.is_quadrant() && #[trigger] after_reconcile(host, job, sidebar_width).has(pane) ==> after_reconcile(
                host,
                job,
                sidebar_width,
            ).panes[pane].url == reconciled_pane(host, pane, job.targets.of(pane), job.fullscreen).url,
        after_reconcile(host, job, sidebar_width).has(Pane::Control) == host.has(Pane::Control),
        after_reconcile(host, job, sidebar_width).refuses == host.refuses,
        job.fullscreen ==> quadrants_parked(after_reconcile(host, job, sidebar_width)),
        !job.fullscreen && host.size is Some ==> quadrants_on_grid(
            after_reconcile(host, job, sidebar_width),
            host.size->0,
            sidebar_width,
        ),
        job.fullscreen || host.size is Some ==> quadrants_alike(after_reconcile(host, job, sidebar_width)),
        after_reconcile(host, job, sidebar_width).observers == host.watched().observers,
        layout_holds(
            after_reconcile(host, job, sidebar_width),
            LayoutState { sidebar_width, is_fullscreen: job.fullscreen },
        ),
{
    let probe = probe_of(host);
    let panes = panes_steps_upto(job, probe, 4);
    let arrange = arrange_steps(job.fullscreen, sidebar_width, probe.size);
    let reconciled = with_panes_reconciled(host, job);
    lemma_panes(host, job);
    lemma_run_concat(host, panes, arrange);
    lemma_arrange(reconciled, job.fullscreen, sidebar_width);
    lemma_run_push(host, panes + arrange, Step::WatchResize);
}

/// Without a window a workspace switch plans nothing.
pub proof fn lemma_reconcile_without_window(host: HostView, job: Reconciliation, sidebar_width: u32)
    ensures
        run(host, reconcile_steps(job, sidebar_width, None)) == host,
{
}

/// Switching to the same workspace twice in a row, with the layout state and
/// the window size unchanged in between, leaves every pane where switching
/// once leaves it: the same rectangles and the same pages.
pub proof fn lemma_reconcile_twice_is_once(host: HostView, job: Reconciliation, sidebar_width: u32)
    ensures
        ({
            let once = run(host, reconcile_steps(job, sidebar_width, Some(probe_of(host))));
            let twice = run(once, reconcile_steps(job, sidebar_width, Some(probe_of(once))));
            twice.panes == once.panes && twice.size == once.size && twice.refuses == once.refuses
        }),
{
    let once = after_reconcile(host, job, sidebar_width);
    lemma_reconcile_effect(host, job, sidebar_width);
    lemma_reconcile_effect(once, job, sidebar_width);
    assert(after_reconcile(once, job, sidebar_width).panes =~= once.panes);
}

} // verus!
