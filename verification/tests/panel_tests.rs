use claudit::panel::{
    compute_show_position, ClickAction, MonitorRect, PanelState, BLUR_SUPPRESS_MS, PANEL_HEIGHT,
    PANEL_WIDTH,
};

fn visible_docked() -> PanelState {
    PanelState {
        visible: true,
        detached: false,
        stay_on_top_detached: false,
        last_blur_hide_ms: None,
    }
}

#[test]
fn blur_then_quick_click_is_suppressed() {
    let mut s = visible_docked();
    let hide = s.on_blur(1000);
    assert!(hide);
    assert!(!s.visible);
    assert_eq!(s.last_blur_hide_ms, Some(1000));
    // 300 ms later: the click is the gesture that caused the blur
    let action = s.toggle_on_click(1300);
    assert_eq!(action, ClickAction::Suppress);
    assert!(!s.visible);
    assert_eq!(s.last_blur_hide_ms, None);
}

#[test]
fn blur_then_late_click_shows_again() {
    let mut s = visible_docked();
    s.on_blur(1000);
    let action = s.toggle_on_click(1600);
    assert_eq!(action, ClickAction::Show);
}

#[test]
fn click_at_window_edge_is_not_suppressed() {
    let mut s = visible_docked();
    s.on_blur(1000);
    let action = s.toggle_on_click(1000 + BLUR_SUPPRESS_MS);
    assert_eq!(action, ClickAction::Show);
}

#[test]
fn click_on_visible_docked_panel_toggles_it_hidden() {
    let mut s = visible_docked();
    let action = s.toggle_on_click(5000);
    assert_eq!(action, ClickAction::Hide);
    assert!(!s.visible);
}

#[test]
fn blur_on_detached_panel_is_ignored() {
    let mut s = visible_docked();
    s.detached = true;
    let hide = s.on_blur(1000);
    assert!(!hide);
    assert!(s.visible);
    assert_eq!(s.last_blur_hide_ms, None);
}

#[test]
fn blur_on_hidden_panel_records_nothing() {
    let mut s = PanelState::new();
    let hide = s.on_blur(1000);
    assert!(!hide);
    assert_eq!(s.last_blur_hide_ms, None);
}

#[test]
fn show_positions_under_the_pointer_clamped_to_the_display() {
    let monitors = vec![MonitorRect { x: 0, y: 0, width: 1920, height: 1080 }];
    // centered under the pointer
    let p = compute_show_position(Some((960, 10)), &monitors, None).unwrap();
    assert_eq!(p, (960 - PANEL_WIDTH / 2, 30));
    // clamped to the right edge
    let p = compute_show_position(Some((1900, 10)), &monitors, None).unwrap();
    assert_eq!(p, (1920 - PANEL_WIDTH, 30));
    // clamped to the left edge
    let p = compute_show_position(Some((10, 10)), &monitors, None).unwrap();
    assert_eq!(p, (0, 30));
}

#[test]
fn show_picks_the_display_containing_the_pointer() {
    let monitors = vec![
        MonitorRect { x: 0, y: 0, width: 1920, height: 1080 },
        MonitorRect { x: 1920, y: 0, width: 1280, height: 1024 },
    ];
    let p = compute_show_position(Some((2000, 100)), &monitors, None).unwrap();
    assert_eq!(p.1, 30);
    // centering under the pointer would overhang the display's left edge,
    // so the panel sits at that edge
    assert_eq!(p.0, 1920);
    // pointer on no display: leave the window where it is
    assert_eq!(compute_show_position(Some((-5000, -5000)), &monitors, None), None);
}

#[test]
fn show_without_pointer_centers_on_the_primary_display() {
    let monitors = vec![];
    let primary = Some(MonitorRect { x: 0, y: 0, width: 1920, height: 1080 });
    let p = compute_show_position(None, &monitors, primary).unwrap();
    assert_eq!(p, ((1920 - PANEL_WIDTH) / 2, 30));
    assert_eq!(compute_show_position(None, &monitors, None), None);
}

#[test]
fn show_on_detached_panel_only_raises() {
    let mut s = PanelState::new();
    s.detached = true;
    let monitors = vec![MonitorRect { x: 0, y: 0, width: 1920, height: 1080 }];
    let repos = s.show(Some((960, 10)), &monitors, None);
    assert_eq!(repos, None);
    assert!(s.visible);
    assert!(s.detached);
}

#[test]
fn detach_applies_the_stay_on_top_preference() {
    let mut s = PanelState::new();
    s.set_stay_on_top(true);
    let plan = s.detach();
    assert!(s.detached);
    assert!(plan.always_on_top);
    assert!(plan.resizable);
    assert_eq!((plan.min_width, plan.min_height), (300, 400));

    let mut s2 = PanelState::new();
    let plan2 = s2.detach();
    assert!(!plan2.always_on_top);
}

#[test]
fn attach_returns_to_a_hidden_fixed_panel() {
    let mut s = visible_docked();
    s.detached = true;
    let plan = s.attach();
    assert!(!s.detached);
    assert!(!s.visible);
    assert!(plan.always_on_top);
    assert!(!plan.resizable);
    assert_eq!((plan.width, plan.height), (PANEL_WIDTH, PANEL_HEIGHT));
}

#[test]
fn hide_panel_marks_not_visible() {
    let mut s = visible_docked();
    s.hide_panel();
    assert!(!s.visible);
}
