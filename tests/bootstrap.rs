use modal_dialog::bootstrap::{plan_windows, BootstrapError, Launch, Surface, WindowKind};
use modal_dialog::geometry::{DisplayInfo, WindowPlacement};

#[test]
fn no_display_fails_before_any_window() {
    assert_eq!(plan_windows(&vec![]).unwrap_err(), BootstrapError::NoDisplay);
    match Launch::start(&vec![]) {
        Err(e) => assert_eq!(e, BootstrapError::NoDisplay),
        Ok(_) => panic!("a start without displays must fail"),
    }
}

#[test]
fn plan_opens_backdrop_then_dialog_on_primary() {
    let displays = vec![
        DisplayInfo { width: 1920, height: 1080 },
        DisplayInfo { width: 1280, height: 1024 },
    ];
    let plan = plan_windows(&displays).unwrap();
    assert_eq!(plan.len(), 2);
    let (b, d) = (plan[0], plan[1]);
    assert_eq!(b.surface, Surface::Backdrop);
    assert_eq!(b.placement, WindowPlacement { x: 0, y: 0, width: 1920, height: 1080 });
    assert!(!b.focus);
    assert_eq!(d.surface, Surface::Dialog);
    assert_eq!(d.placement, WindowPlacement { x: 730, y: 450, width: 460, height: 180 });
    assert!(d.focus);
    for w in [b, d] {
        assert_eq!(w.display, 0);
        assert_eq!(w.kind, WindowKind::PopUp);
        assert!(w.transparent && w.show && !w.movable && !w.titlebar);
    }
}

#[test]
fn launch_opens_both_windows_in_order() {
    let mut launch = Launch::start(&vec![DisplayInfo { width: 800, height: 600 }]).unwrap();
    assert!(!launch.is_complete());
    assert_eq!(launch.next_window().map(|w| w.surface), Some(Surface::Backdrop));
    assert_eq!(launch.window_created(true), Ok(()));
    assert_eq!(launch.next_window().map(|w| w.surface), Some(Surface::Dialog));
    assert_eq!(launch.window_created(true), Ok(()));
    assert_eq!(launch.next_window(), None);
    assert!(launch.is_complete());
}

#[test]
fn refused_window_aborts_launch() {
    let mut launch = Launch::start(&vec![DisplayInfo { width: 800, height: 600 }]).unwrap();
    assert_eq!(launch.window_created(true), Ok(()));
    assert_eq!(launch.window_created(false), Err(BootstrapError::WindowCreationFailed));
    assert_eq!(launch.next_window(), None);
    assert!(!launch.is_complete());
    assert_eq!(launch.opened, 1);
}

#[test]
fn refused_first_window_aborts_launch() {
    let mut launch = Launch::start(&vec![DisplayInfo { width: 800, height: 600 }]).unwrap();
    assert_eq!(launch.window_created(false), Err(BootstrapError::WindowCreationFailed));
    assert_eq!(launch.next_window(), None);
    assert_eq!(launch.opened, 0);
}
