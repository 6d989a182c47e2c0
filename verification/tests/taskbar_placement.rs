use sysmon::taskbar_window::{
    is_embedded, mark_detached, placement_representable, mark_embedded, plan_embedding, taskbar_window_position, EmbedPlan,
    Point, Rect, TaskbarEmbedding,
};

#[test]
fn embedding_happens_once_until_detached() {
    let mut e = TaskbarEmbedding::new();
    assert!(!is_embedded(&e));
    assert_eq!(
        plan_embedding(&e, false),
        Some(EmbedPlan { hide_before_reparent: true, show_after: false })
    );
    assert_eq!(
        plan_embedding(&e, true),
        Some(EmbedPlan { hide_before_reparent: false, show_after: true })
    );
    mark_embedded(&mut e);
    assert!(is_embedded(&e));
    assert_eq!(plan_embedding(&e, true), None);
    assert_eq!(plan_embedding(&e, false), None);
    mark_detached(&mut e);
    assert!(!is_embedded(&e));
    assert!(plan_embedding(&e, true).is_some());
}

#[test]
fn horizontal_taskbar_places_left_of_tray_centered() {
    let taskbar = Rect { left: 0, top: 1040, right: 1920, bottom: 1080 };
    let tray = Some((Point { x: 1700, y: 0 }, Point { x: 1920, y: 40 }));
    let p = taskbar_window_position(taskbar, tray, Point { x: 1920, y: 0 }, 1920, 120, 28);
    assert_eq!(p, Point { x: 1580, y: 6 });
}

#[test]
fn horizontal_taskbar_without_tray_uses_taskbar_edge() {
    let taskbar = Rect { left: 0, top: 1040, right: 1920, bottom: 1080 };
    let p = taskbar_window_position(taskbar, None, Point { x: 1920, y: 0 }, 1920, 150, 35);
    assert_eq!(p, Point { x: 1770, y: 2 });
}

#[test]
fn odd_centering_rounds_toward_zero() {
    let taskbar = Rect { left: 0, top: 0, right: 1000, bottom: 30 };
    // tray height 30 minus window height 35 is -5; halving gives -2, not -3.
    let tray = Some((Point { x: 900, y: 10 }, Point { x: 1000, y: 40 }));
    let p = taskbar_window_position(taskbar, tray, Point { x: 1000, y: 0 }, 1000, 120, 35);
    assert_eq!(p, Point { x: 780, y: 8 });
}

#[test]
fn vertical_taskbar_places_above_tray_centered_across() {
    let taskbar = Rect { left: 0, top: 0, right: 62, bottom: 1080 };
    let tray = Some((Point { x: 0, y: 900 }, Point { x: 62, y: 1080 }));
    let p = taskbar_window_position(taskbar, tray, Point { x: 62, y: 0 }, 62, 121, 28);
    assert_eq!(p, Point { x: 31 - 60, y: 872 });
}

#[test]
fn placement_range_check() {
    let taskbar = Rect { left: 0, top: 1040, right: 1920, bottom: 1080 };
    let tray = Some((Point { x: 1700, y: 0 }, Point { x: 1920, y: 40 }));
    assert!(placement_representable(taskbar, tray, Point { x: 1920, y: 0 }, 1920, 120, 28));
    let far = Some((Point { x: i32::MIN + 10, y: 0 }, Point { x: 0, y: 40 }));
    assert!(!placement_representable(taskbar, far, Point { x: 1920, y: 0 }, 1920, 120, 28));
    let wide = Rect { left: i32::MIN, top: 0, right: i32::MAX, bottom: 40 };
    assert!(!placement_representable(wide, None, Point { x: 0, y: 0 }, 0, 120, 28));
}
