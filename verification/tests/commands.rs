use workspace_panes::geometry::{Rect, WindowSize};
use workspace_panes::host::{Action, WindowProbe};
use workspace_panes::json_handler::StoreError;
use workspace_panes::layout_state::LayoutState;
use workspace_panes::pane::Pane;
use workspace_panes::plans::SETTLE_MILLIS;
use workspace_panes::window_manager::{
    apply_quadrant_layout, load_workspace, on_window_resized, reconcile, toggle_fullscreen, update_sidebar_width,
};
use workspace_panes::workspace::{PaneTargets, Reconciliation, Target};

const SIZE: WindowSize = WindowSize { width: 1200, height: 800 };

fn probe(size: Option<WindowSize>, found: [bool; 4]) -> Option<WindowProbe> {
    Some(WindowProbe { size, main1: found[0], main2: found[1], main3: found[2], main4: found[3] })
}

fn place(pane: Pane, x: i64, y: i64, width: i64, height: i64) -> Vec<Action> {
    vec![Action::Move { pane, x, y }, Action::Resize { pane, width, height }]
}

fn conceal(pane: Pane) -> Vec<Action> {
    vec![Action::Resize { pane, width: 0, height: 0 }, Action::Move { pane, x: -2000, y: -2000 }]
}

fn grid_1200_800_64() -> Vec<Action> {
    let mut plan = Vec::new();
    plan.extend(place(Pane::Main1, 128, 0, 1136, 800));
    plan.extend(place(Pane::Main2, 1264, 0, 1136, 800));
    plan.extend(place(Pane::Main3, 128, 800, 1136, 800));
    plan.extend(place(Pane::Main4, 1264, 800, 1136, 800));
    plan
}

fn state(sidebar_width: u32, is_fullscreen: bool) -> LayoutState {
    LayoutState { sidebar_width, is_fullscreen }
}

fn keep_all(fullscreen: bool) -> Reconciliation {
    Reconciliation {
        targets: PaneTargets { main1: Target::Keep, main2: Target::Keep, main3: Target::Keep, main4: Target::Keep },
        fullscreen,
    }
}

#[test]
fn settle_time_is_fifty_milliseconds() {
    assert_eq!(SETTLE_MILLIS, 50);
}

#[test]
fn quadrant_layout_places_the_four_panes_in_order() {
    assert_eq!(apply_quadrant_layout(&state(64, false), SIZE), grid_1200_800_64());
    assert_eq!(apply_quadrant_layout(&state(64, true), SIZE), grid_1200_800_64());
}

#[test]
fn sidebar_change_outside_fullscreen_applies_the_grid() {
    let mut layout = state(64, false);
    let plan = update_sidebar_width(&mut layout, 100, probe(Some(SIZE), [true; 4]));
    assert_eq!(layout, state(100, false));
    let mut expected = vec![Action::Resize { pane: Pane::Control, width: 2400, height: 1600 }];
    expected.extend(place(Pane::Main1, 200, 0, 1100, 800));
    expected.extend(place(Pane::Main2, 1300, 0, 1100, 800));
    expected.extend(place(Pane::Main3, 200, 800, 1100, 800));
    expected.extend(place(Pane::Main4, 1300, 800, 1100, 800));
    assert_eq!(plan, expected);
}

#[test]
fn sidebar_change_in_fullscreen_is_only_recorded() {
    let mut layout = state(64, true);
    let plan = update_sidebar_width(&mut layout, 100, probe(Some(SIZE), [true; 4]));
    assert_eq!(layout, state(100, true));
    assert_eq!(plan, Vec::new());
}

#[test]
fn sidebar_change_without_window_or_size_is_only_recorded() {
    let mut layout = state(64, false);
    assert_eq!(update_sidebar_width(&mut layout, 10, None), Vec::new());
    assert_eq!(layout, state(10, false));
    assert_eq!(update_sidebar_width(&mut layout, 20, probe(None, [true; 4])), Vec::new());
    assert_eq!(layout, state(20, false));
}

#[test]
fn entering_fullscreen_hides_quadrants_and_spreads_the_control_pane() {
    let mut layout = state(64, false);
    let plan = toggle_fullscreen(&mut layout, true, probe(Some(SIZE), [true; 4]));
    assert_eq!(layout, state(64, true));
    let mut expected = Vec::new();
    expected.extend(conceal(Pane::Main1));
    expected.extend(conceal(Pane::Main2));
    expected.extend(conceal(Pane::Main3));
    expected.extend(conceal(Pane::Main4));
    expected.extend(place(Pane::Control, 0, 0, 2400, 1600));
    expected.push(Action::Settle { millis: 50 });
    assert_eq!(plan, expected);
}

#[test]
fn entering_fullscreen_without_size_only_hides() {
    let mut layout = state(64, false);
    let plan = toggle_fullscreen(&mut layout, true, probe(None, [false; 4]));
    assert_eq!(layout, state(64, true));
    let mut expected = Vec::new();
    expected.extend(conceal(Pane::Main1));
    expected.extend(conceal(Pane::Main2));
    expected.extend(conceal(Pane::Main3));
    expected.extend(conceal(Pane::Main4));
    expected.push(Action::Settle { millis: 50 });
    assert_eq!(plan, expected);
}

#[test]
fn leaving_fullscreen_restores_sidebar_column_and_grid() {
    let mut layout = state(64, true);
    let plan = toggle_fullscreen(&mut layout, false, probe(Some(SIZE), [true; 4]));
    assert_eq!(layout, state(64, false));
    let mut expected = place(Pane::Control, 0, 0, 128, 1600);
    expected.extend(grid_1200_800_64());
    expected.push(Action::Settle { millis: 50 });
    assert_eq!(plan, expected);
}

#[test]
fn leaving_fullscreen_without_size_only_waits() {
    let mut layout = state(64, true);
    let plan = toggle_fullscreen(&mut layout, false, probe(None, [true; 4]));
    assert_eq!(layout, state(64, false));
    assert_eq!(plan, vec![Action::Settle { millis: 50 }]);
}

#[test]
fn toggle_without_window_records_and_waits() {
    let mut layout = state(64, false);
    assert_eq!(toggle_fullscreen(&mut layout, true, None), vec![Action::Settle { millis: 50 }]);
    assert_eq!(layout, state(64, true));
    assert_eq!(toggle_fullscreen(&mut layout, false, None), vec![Action::Settle { millis: 50 }]);
    assert_eq!(layout, state(64, false));
}

#[test]
fn resize_observer_reads_the_fullscreen_flag() {
    assert_eq!(on_window_resized(&state(64, false), SIZE), grid_1200_800_64());
    assert_eq!(
        on_window_resized(&state(64, true), WindowSize { width: 640, height: 480 }),
        place(Pane::Control, 0, 0, 1280, 960)
    );
}

#[test]
fn load_workspace_reports_lookup_errors() {
    let layout = LayoutState::new();
    assert_eq!(
        load_workspace(r#"{"Work": {}}"#, "Play", &layout),
        Err(StoreError::WorkspaceNotFound { name: "Play".to_string() })
    );
    assert!(matches!(load_workspace("{", "Work", &layout), Err(StoreError::Parse { .. })));
    assert_eq!(
        load_workspace("[]", "Work", &layout),
        Err(StoreError::WorkspaceNotFound { name: "Work".to_string() })
    );
}

#[test]
fn load_workspace_decides_targets_and_notes_fullscreen() {
    let store = r#"{"Work": {"main1": {"url":"https://a.test"}, "main2": {"url":"nonsense"}, "main4": {"url": 4}}}"#;
    let expected = PaneTargets {
        main1: Target::Open("https://a.test".to_string()),
        main2: Target::Malformed,
        main3: Target::Keep,
        main4: Target::Keep,
    };
    assert_eq!(
        load_workspace(store, "Work", &state(64, false)),
        Ok(Reconciliation { targets: expected.clone(), fullscreen: false })
    );
    assert_eq!(
        load_workspace(store, "Work", &state(300, true)),
        Ok(Reconciliation { targets: expected, fullscreen: true })
    );
}

#[test]
fn reconcile_without_window_plans_nothing() {
    assert_eq!(reconcile(&keep_all(false), 64, None), Vec::new());
    assert_eq!(reconcile(&keep_all(true), 64, None), Vec::new());
}

#[test]
fn reconcile_creates_missing_panes_at_the_placeholder() {
    let job = Reconciliation {
        targets: PaneTargets {
            main1: Target::Open("https://a.test".to_string()),
            main2: Target::Keep,
            main3: Target::Malformed,
            main4: Target::Open("https://d.test".to_string()),
        },
        fullscreen: false,
    };
    let plan = reconcile(&job, 64, probe(Some(SIZE), [false; 4]));
    let at = Rect { x: 0, y: 0, width: 200, height: 200 };
    let mut expected = vec![
        Action::Create { pane: Pane::Main1, url: "https://a.test".to_string(), rect: at },
        Action::Create { pane: Pane::Main2, url: "about:blank".to_string(), rect: at },
        Action::Create { pane: Pane::Main3, url: "about:blank".to_string(), rect: at },
        Action::Create { pane: Pane::Main4, url: "https://d.test".to_string(), rect: at },
    ];
    expected.extend(grid_1200_800_64());
    expected.push(Action::Resize { pane: Pane::Control, width: 2400, height: 1600 });
    expected.push(Action::WatchResize);
    assert_eq!(plan, expected);
}

#[test]
fn reconcile_navigates_existing_panes_with_a_usable_url() {
    let job = Reconciliation {
        targets: PaneTargets {
            main1: Target::Open("https://a.test".to_string()),
            main2: Target::Keep,
            main3: Target::Malformed,
            main4: Target::Open("https://d.test".to_string()),
        },
        fullscreen: false,
    };
    let plan = reconcile(&job, 64, probe(None, [true, true, true, false]));
    let expected = vec![
        Action::Navigate { pane: Pane::Main1, url: "https://a.test".to_string() },
        Action::Create {
            pane: Pane::Main4,
            url: "https://d.test".to_string(),
            rect: Rect { x: 0, y: 0, width: 200, height: 200 },
        },
        Action::WatchResize,
    ];
    assert_eq!(plan, expected);
}

#[test]
fn reconcile_in_fullscreen_hides_and_covers() {
    let job = Reconciliation {
        targets: PaneTargets {
            main1: Target::Open("https://a.test".to_string()),
            main2: Target::Keep,
            main3: Target::Open("https://c.test".to_string()),
            main4: Target::Malformed,
        },
        fullscreen: true,
    };
    let plan = reconcile(&job, 64, probe(Some(SIZE), [true, true, false, false]));
    let off_screen = Rect { x: -2000, y: -2000, width: 0, height: 0 };
    let mut expected = vec![Action::Navigate { pane: Pane::Main1, url: "https://a.test".to_string() }];
    expected.extend(conceal(Pane::Main1));
    expected.extend(conceal(Pane::Main2));
    expected.push(Action::Create { pane: Pane::Main3, url: "https://c.test".to_string(), rect: off_screen });
    expected.push(Action::Create { pane: Pane::Main4, url: "about:blank".to_string(), rect: off_screen });
    expected.extend(place(Pane::Control, 0, 0, 2400, 1600));
    expected.push(Action::WatchResize);
    assert_eq!(plan, expected);
}

#[test]
fn reconcile_in_fullscreen_without_size_leaves_the_control_pane() {
    let plan = reconcile(&keep_all(true), 64, probe(None, [true; 4]));
    let mut expected = Vec::new();
    expected.extend(conceal(Pane::Main1));
    expected.extend(conceal(Pane::Main2));
    expected.extend(conceal(Pane::Main3));
    expected.extend(conceal(Pane::Main4));
    expected.push(Action::WatchResize);
    assert_eq!(plan, expected);
}

#[test]
fn reconcile_uses_the_sidebar_width_it_is_given() {
    let plan = reconcile(&keep_all(false), 100, probe(Some(SIZE), [true; 4]));
    let mut expected = Vec::new();
    expected.extend(place(Pane::Main1, 200, 0, 1100, 800));
    expected.extend(place(Pane::Main2, 1300, 0, 1100, 800));
    expected.extend(place(Pane::Main3, 200, 800, 1100, 800));
    expected.extend(place(Pane::Main4, 1300, 800, 1100, 800));
    expected.push(Action::Resize { pane: Pane::Control, width: 2400, height: 1600 });
    expected.push(Action::WatchResize);
    assert_eq!(plan, expected);
}
