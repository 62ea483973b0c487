use workspace_panes::geometry::{compute_quadrants, Rect, WindowSize};
use workspace_panes::host::{Action, HostWindow, PaneState};
use workspace_panes::layout_state::LayoutState;
use workspace_panes::pane::Pane;
use workspace_panes::window_manager::{
    load_workspace, on_window_resized, reconcile, toggle_fullscreen, update_sidebar_width,
};

const QUADRANTS: [Pane; 4] = [Pane::Main1, Pane::Main2, Pane::Main3, Pane::Main4];

const STORE: &str = r#"{"Work": {"main1": {"url":"https://a.test"}, "main2": {"url":"https://b.test"}}}"#;

fn px(half_pixels: i64) -> f64 {
    half_pixels as f64 / 2.0
}

fn window(width: u32, height: u32) -> HostWindow {
    let mut host = HostWindow::new(Some(WindowSize { width, height }));
    host.apply(&Action::Create {
        pane: Pane::Control,
        url: "tauri://localhost".to_string(),
        rect: Rect { x: 0, y: 0, width: 2 * width as i64, height: 2 * height as i64 },
    });
    host
}

fn shown(host: &HostWindow, pane: Pane) -> PaneState {
    host.pane(pane).unwrap().clone()
}

fn panes(host: &HostWindow) -> Vec<Option<PaneState>> {
    [Pane::Main1, Pane::Main2, Pane::Main3, Pane::Main4, Pane::Control]
        .iter()
        .map(|pane| host.pane(*pane).cloned())
        .collect()
}

fn switch_to(host: &mut HostWindow, state: &LayoutState, store: &str, name: &str) {
    let job = load_workspace(store, name, state).unwrap();
    let plan = reconcile(&job, state.sidebar_width, Some(host.probe()));
    host.run_plan(&plan);
}

fn set_fullscreen(host: &mut HostWindow, state: &mut LayoutState, enabled: bool) {
    let plan = toggle_fullscreen(state, enabled, Some(host.probe()));
    host.run_plan(&plan);
}

fn assert_on_grid(host: &HostWindow, state: &LayoutState) {
    let size = host.size().unwrap();
    let grid = compute_quadrants(size.width, size.height, state.sidebar_width);
    for (pane, rect) in QUADRANTS.iter().zip(grid.iter()) {
        assert_eq!(shown(host, *pane).rect, *rect);
        assert_eq!(shown(host, *pane).rect.width, grid[0].width);
        assert_eq!(shown(host, *pane).rect.height, grid[0].height);
    }
}

fn assert_parked(host: &HostWindow) {
    for pane in QUADRANTS.iter() {
        assert_eq!(shown(host, *pane).rect, Rect { x: -2000, y: -2000, width: 0, height: 0 });
    }
}

#[test]
fn loading_work_fills_the_quadrants_of_a_1200_by_800_window() {
    let mut host = window(1200, 800);
    let state = LayoutState::new();
    assert_eq!(state.get(), (64, false));
    switch_to(&mut host, &state, STORE, "Work");
    assert_eq!(shown(&host, Pane::Main1).url, "https://a.test");
    assert_eq!(shown(&host, Pane::Main2).url, "https://b.test");
    assert_eq!(shown(&host, Pane::Main3).url, "about:blank");
    assert_eq!(shown(&host, Pane::Main4).url, "about:blank");
    let corners = [(64.0, 0.0), (632.0, 0.0), (64.0, 400.0), (632.0, 400.0)];
    for (pane, (x, y)) in QUADRANTS.iter().zip(corners.iter()) {
        let rect = shown(&host, *pane).rect;
        assert_eq!((px(rect.x), px(rect.y)), (*x, *y));
        assert_eq!((px(rect.width), px(rect.height)), (568.0, 400.0));
    }
    let right = shown(&host, Pane::Main4).rect;
    assert_eq!(px(right.x) + px(right.width), 1200.0);
    assert_eq!(px(right.y) + px(right.height), 800.0);
    assert_eq!(px(shown(&host, Pane::Main1).rect.x), 64.0);
    assert_eq!(2.0 * px(right.width), 1136.0);
    assert_eq!(shown(&host, Pane::Control).url, "tauri://localhost");
    let control = shown(&host, Pane::Control).rect;
    assert_eq!((px(control.width), px(control.height)), (1200.0, 800.0));
    assert_eq!(host.observers(), 1);
}

#[test]
fn sidebar_change_in_fullscreen_waits_for_the_way_out() {
    let mut host = window(1200, 800);
    let mut state = LayoutState::new();
    switch_to(&mut host, &state, STORE, "Work");
    set_fullscreen(&mut host, &mut state, true);
    let before = panes(&host);
    let plan = update_sidebar_width(&mut state, 100, Some(host.probe()));
    assert_eq!(state.get(), (100, true));
    assert!(plan.is_empty());
    host.run_plan(&plan);
    assert_eq!(panes(&host), before);
    set_fullscreen(&mut host, &mut state, false);
    let control = shown(&host, Pane::Control).rect;
    assert_eq!((px(control.x), px(control.y)), (0.0, 0.0));
    assert_eq!(px(control.width), 100.0);
    assert_eq!(px(control.height), 800.0);
    assert_on_grid(&host, &state);
    assert_eq!(px(shown(&host, Pane::Main1).rect.x), 100.0);
    assert_eq!(px(shown(&host, Pane::Main1).rect.width), 550.0);
}

#[test]
fn loading_twice_is_loading_once() {
    for fullscreen in [false, true].iter() {
        let mut host = window(1201, 801);
        host.apply(&Action::Create {
            pane: Pane::Main3,
            url: "https://old.test".to_string(),
            rect: Rect { x: 1, y: 2, width: 3, height: 4 },
        });
        let state = LayoutState { sidebar_width: 77, is_fullscreen: *fullscreen };
        switch_to(&mut host, &state, STORE, "Work");
        let once = panes(&host);
        assert_eq!(shown(&host, Pane::Main3).url, "https://old.test");
        switch_to(&mut host, &state, STORE, "Work");
        assert_eq!(panes(&host), once);
        assert_eq!(host.observers(), 2);
    }
}

#[test]
fn loading_twice_without_a_window_size_is_loading_once() {
    let mut host = HostWindow::new(None);
    let state = LayoutState::new();
    switch_to(&mut host, &state, STORE, "Work");
    let once = panes(&host);
    assert_eq!(shown(&host, Pane::Main1).rect, Rect { x: 0, y: 0, width: 200, height: 200 });
    switch_to(&mut host, &state, STORE, "Work");
    assert_eq!(panes(&host), once);
}

#[test]
fn entering_fullscreen_twice_is_entering_once() {
    let mut host = window(1200, 800);
    let mut state = LayoutState::new();
    switch_to(&mut host, &state, STORE, "Work");
    set_fullscreen(&mut host, &mut state, true);
    let once = panes(&host);
    assert_parked(&host);
    assert_eq!(shown(&host, Pane::Control).rect, Rect { x: 0, y: 0, width: 2400, height: 1600 });
    set_fullscreen(&mut host, &mut state, true);
    assert_eq!(panes(&host), once);
    assert_eq!(state.get(), (64, true));
}

#[test]
fn leaving_fullscreen_twice_is_leaving_once() {
    let mut host = window(1200, 800);
    let mut state = LayoutState { sidebar_width: 64, is_fullscreen: true };
    switch_to(&mut host, &state, STORE, "Work");
    assert_parked(&host);
    set_fullscreen(&mut host, &mut state, false);
    let once = panes(&host);
    assert_on_grid(&host, &state);
    set_fullscreen(&mut host, &mut state, false);
    assert_eq!(panes(&host), once);
}

#[test]
fn quadrant_panes_keep_one_size_through_every_command() {
    let mut host = window(1000, 700);
    let mut state = LayoutState::new();
    switch_to(&mut host, &state, STORE, "Work");
    assert_on_grid(&host, &state);
    let plan = update_sidebar_width(&mut state, 301, Some(host.probe()));
    host.run_plan(&plan);
    assert_on_grid(&host, &state);
    host.set_size(Some(WindowSize { width: 777, height: 555 }));
    host.run_plan(&on_window_resized(&state, WindowSize { width: 777, height: 555 }));
    assert_on_grid(&host, &state);
    set_fullscreen(&mut host, &mut state, true);
    assert_parked(&host);
    host.set_size(Some(WindowSize { width: 900, height: 600 }));
    host.run_plan(&on_window_resized(&state, WindowSize { width: 900, height: 600 }));
    assert_parked(&host);
    assert_eq!(shown(&host, Pane::Control).rect, Rect { x: 0, y: 0, width: 1800, height: 1200 });
    switch_to(&mut host, &state, STORE, "Work");
    assert_parked(&host);
    set_fullscreen(&mut host, &mut state, false);
    assert_on_grid(&host, &state);
    assert_eq!(shown(&host, Pane::Control).rect, Rect { x: 0, y: 0, width: 602, height: 1200 });
}

#[test]
fn fullscreen_toggled_between_resizes_is_seen_by_the_observer() {
    let mut host = window(1200, 800);
    let mut state = LayoutState::new();
    switch_to(&mut host, &state, STORE, "Work");
    state.set_fullscreen(true);
    host.set_size(Some(WindowSize { width: 500, height: 400 }));
    host.run_plan(&on_window_resized(&state, WindowSize { width: 500, height: 400 }));
    assert_eq!(shown(&host, Pane::Control).rect, Rect { x: 0, y: 0, width: 1000, height: 800 });
    assert_eq!(shown(&host, Pane::Main1).rect, Rect { x: 128, y: 0, width: 1136, height: 800 });
    state.set_fullscreen(false);
    host.run_plan(&on_window_resized(&state, WindowSize { width: 500, height: 400 }));
    assert_on_grid(&host, &state);
}

#[test]
fn switching_workspaces_keeps_pages_that_the_new_one_does_not_name() {
    let store = r#"{"A": {"main1": {"url":"https://a.test"}, "main2": {"url":"https://b.test"}},
                    "B": {"main2": {"url":"https://c.test"}, "main3": {"url":"no url"}}}"#;
    let mut host = window(1200, 800);
    let state = LayoutState::new();
    switch_to(&mut host, &state, store, "A");
    switch_to(&mut host, &state, store, "B");
    assert_eq!(shown(&host, Pane::Main1).url, "https://a.test");
    assert_eq!(shown(&host, Pane::Main2).url, "https://c.test");
    assert_eq!(shown(&host, Pane::Main3).url, "about:blank");
    assert_eq!(shown(&host, Pane::Main4).url, "about:blank");
    assert_on_grid(&host, &state);
}

#[test]
fn refused_pane_is_passed_over_and_the_rest_goes_on() {
    let mut host = window(1200, 800);
    host.refuse(Pane::Main2);
    let mut state = LayoutState::new();
    switch_to(&mut host, &state, STORE, "Work");
    assert!(host.pane(Pane::Main2).is_none());
    let grid = compute_quadrants(1200, 800, 64);
    assert_eq!(shown(&host, Pane::Main1), PaneState { rect: grid[0], url: "https://a.test".to_string() });
    assert_eq!(shown(&host, Pane::Main3), PaneState { rect: grid[2], url: "about:blank".to_string() });
    assert_eq!(shown(&host, Pane::Main4), PaneState { rect: grid[3], url: "about:blank".to_string() });
    assert_eq!(host.observers(), 1);
    let once = panes(&host);
    switch_to(&mut host, &state, STORE, "Work");
    assert_eq!(panes(&host), once);
    set_fullscreen(&mut host, &mut state, true);
    assert!(host.pane(Pane::Main2).is_none());
    for pane in [Pane::Main1, Pane::Main3, Pane::Main4].iter() {
        assert_eq!(shown(&host, *pane).rect, Rect { x: -2000, y: -2000, width: 0, height: 0 });
    }
}

#[test]
fn sidebar_wider_than_the_window_is_not_clamped() {
    let mut host = window(100, 80);
    let mut state = LayoutState::new();
    switch_to(&mut host, &state, STORE, "Work");
    let plan = update_sidebar_width(&mut state, 150, Some(host.probe()));
    host.run_plan(&plan);
    assert_on_grid(&host, &state);
    let rect = shown(&host, Pane::Main2).rect;
    assert_eq!((px(rect.x), px(rect.width)), (125.0, -25.0));
}
