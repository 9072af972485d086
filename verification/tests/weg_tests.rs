use seelen_weg::events::WegEvent;
use seelen_weg::geometry::{are_overlaped, Rect};
use seelen_weg::positioner::{HideMode, SeelenWegSide};
use seelen_weg::weg::{ForegroundInfo, SeelenWeg};

fn rect(left: i32, top: i32, right: i32, bottom: i32) -> Rect {
    Rect { left, top, right, bottom }
}

fn foreground_at(r: Rect) -> ForegroundInfo {
    ForegroundInfo {
        is_visible: true,
        is_seelen_overlay: false,
        title: String::from("Some App"),
        exe: String::from("app.exe"),
        rect: r,
    }
}

const WORK_AREA: Rect = Rect { left: 0, top: 0, right: 1920, bottom: 1080 };

#[test]
fn rectangles_overlap_when_interiors_meet() {
    let a = rect(0, 1040, 1920, 1080);
    assert!(are_overlaped(&a, &rect(100, 1000, 200, 1050)));
    assert!(!are_overlaped(&a, &rect(100, 0, 200, 1040)));
    assert!(!are_overlaped(&a, &rect(1920, 1040, 2000, 1080)));
}

#[test]
fn bottom_dock_geometry_at_unit_scale() {
    let mut weg = SeelenWeg::new();
    let plan = weg.set_positions(WORK_AREA, SeelenWegSide::Bottom, 40, 100, HideMode::Never);
    assert_eq!(plan.theoretical_rect, rect(0, 1040, 1920, 1080));
    assert_eq!(plan.hidden_rect, rect(0, 1079, 1920, 1080));
    assert_eq!(weg.theoretical_rect, rect(0, 1040, 1920, 1080));
}

#[test]
fn left_dock_scaled_thickness_truncates() {
    let mut weg = SeelenWeg::new();
    let plan = weg.set_positions(WORK_AREA, SeelenWegSide::Left, 50, 125, HideMode::Never);
    assert_eq!(plan.theoretical_rect, rect(0, 0, 62, 1080));
    assert_eq!(plan.theoretical_rect.right - plan.theoretical_rect.left, 62);
    assert_eq!(plan.hidden_rect, rect(0, 0, 1, 1080));
}

#[test]
fn reservation_rect_follows_hide_mode_on_every_side() {
    let sides = [
        SeelenWegSide::Left,
        SeelenWegSide::Right,
        SeelenWegSide::Top,
        SeelenWegSide::Bottom,
    ];
    for side in sides {
        let mut weg = SeelenWeg::new();
        let visible = weg.set_positions(WORK_AREA, side, 40, 100, HideMode::Never);
        assert_eq!(visible.reservation_rect, visible.theoretical_rect);
        for mode in [HideMode::Always, HideMode::OnOverlap] {
            let mut weg = SeelenWeg::new();
            let hidden = weg.set_positions(WORK_AREA, side, 40, 100, mode);
            assert_eq!(hidden.reservation_rect, hidden.hidden_rect);
        }
    }
}

#[test]
fn placement_steps_use_full_work_area() {
    let mut weg = SeelenWeg::new();
    let plan = weg.set_positions(WORK_AREA, SeelenWegSide::Top, 30, 100, HideMode::Always);
    assert_eq!(plan.pre_position_rect, WORK_AREA);
    assert_eq!(plan.final_position_rect, WORK_AREA);
    assert_eq!(plan.work_area, WORK_AREA);
    assert_eq!(plan.edge, SeelenWegSide::Top);
}

#[test]
fn overlap_sequence_emits_two_edge_triggers() {
    let mut weg = SeelenWeg::new();
    weg.set_positions(WORK_AREA, SeelenWegSide::Bottom, 40, 100, HideMode::OnOverlap);
    let free = rect(0, 0, 800, 600);
    let overlapping = rect(0, 500, 800, 1080);
    let mut emitted: Vec<bool> = Vec::new();
    for r in [free, free, overlapping, overlapping, free] {
        match weg.handle_overlaped_status(&foreground_at(r)) {
            Some(WegEvent::SetAutoHide(b)) => emitted.push(b),
            Some(_) => panic!("only auto-hide notifications are owed here"),
            None => {}
        }
    }
    assert_eq!(emitted, vec![true, false]);
}

#[test]
fn exempt_foregrounds_keep_prior_state() {
    let mut weg = SeelenWeg::new();
    weg.set_positions(WORK_AREA, SeelenWegSide::Bottom, 40, 100, HideMode::OnOverlap);
    let overlapping = rect(0, 500, 800, 1080);

    let mut invisible = foreground_at(overlapping);
    invisible.is_visible = false;
    assert!(weg.handle_overlaped_status(&invisible).is_none());

    let mut own_surface = foreground_at(overlapping);
    own_surface.is_seelen_overlay = true;
    assert!(weg.handle_overlaped_status(&own_surface).is_none());

    let mut excluded_title = foreground_at(overlapping);
    excluded_title.title = String::from("Task Switching");
    assert!(weg.handle_overlaped_status(&excluded_title).is_none());

    let mut excluded_exe = foreground_at(overlapping);
    excluded_exe.exe = String::from("SearchHost.exe");
    assert!(weg.handle_overlaped_status(&excluded_exe).is_none());

    assert!(!weg.overlaped);
}

#[test]
fn repeated_same_observation_emits_nothing() {
    let mut weg = SeelenWeg::new();
    let first = weg.set_overlaped_status(true);
    let second = weg.set_overlaped_status(true);
    assert!(matches!(first, Some(WegEvent::SetAutoHide(true))));
    assert!(second.is_none());
    assert!(weg.overlaped);
}

#[test]
fn auto_hide_event_name_matches_wire_protocol() {
    let mut weg = SeelenWeg::new();
    let event = weg.set_overlaped_status(true).unwrap();
    assert_eq!(event.event_name(), "set-auto-hide");
}

#[test]
fn hide_and_show_toggle_the_flag_only() {
    let mut weg = SeelenWeg::new();
    weg.set_positions(WORK_AREA, SeelenWegSide::Bottom, 40, 100, HideMode::Never);
    let kept = weg.theoretical_rect;
    weg.hide_dock();
    assert!(weg.hidden);
    assert_eq!(weg.theoretical_rect, kept);
    weg.show();
    assert!(!weg.hidden);
}

#[test]
fn focus_change_owes_handle_then_executable() {
    let (first, second) = SeelenWeg::set_active_window(77, String::from("C:\\apps\\a.exe"));
    match first {
        WegEvent::SetFocusedHandle(h) => assert_eq!(h, 77),
        _ => panic!("expected the focused-handle notification first"),
    }
    assert_eq!(first.event_name(), "set-focused-handle");
    match second {
        WegEvent::SetFocusedExecutable(ref e) => assert_eq!(e, "C:\\apps\\a.exe"),
        _ => panic!("expected the focused-executable notification second"),
    }
    assert_eq!(second.event_name(), "set-focused-executable");
}
