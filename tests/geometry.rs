use modal_dialog::geometry::{
    backdrop_placement, center_offset, dialog_placement, DisplayInfo, WindowPlacement,
    DIALOG_HEIGHT, DIALOG_WIDTH,
};

#[test]
fn dialog_origin_on_full_hd_display() {
    let d = DisplayInfo { width: 1920, height: 1080 };
    let p = dialog_placement(&d);
    assert_eq!((p.x, p.y), (730, 450));
    assert_eq!((p.width, p.height), (460, 180));
}

#[test]
fn dialog_size_is_fixed() {
    assert_eq!((DIALOG_WIDTH, DIALOG_HEIGHT), (460, 180));
    for (w, h) in [(1u32, 1u32), (460, 180), (800, 600), (2560, 1440), (u32::MAX, u32::MAX)] {
        let p = dialog_placement(&DisplayInfo { width: w, height: h });
        assert_eq!((p.width, p.height), (460, 180));
    }
}

#[test]
fn dialog_centered_for_several_sizes() {
    let cases = [
        ((800u32, 600u32), (170i64, 210i64)),
        ((1280, 720), (410, 270)),
        ((2560, 1440), (1050, 630)),
        ((460, 180), (0, 0)),
    ];
    for ((w, h), origin) in cases {
        let p = dialog_placement(&DisplayInfo { width: w, height: h });
        assert_eq!((p.x, p.y), origin);
    }
}

#[test]
fn dialog_origin_rounds_down_on_odd_space() {
    let p = dialog_placement(&DisplayInfo { width: 1921, height: 1081 });
    assert_eq!((p.x, p.y), (730, 450));
}

#[test]
fn dialog_on_display_smaller_than_dialog() {
    let p = dialog_placement(&DisplayInfo { width: 100, height: 80 });
    assert_eq!((p.x, p.y), (-180, -50));
    let q = dialog_placement(&DisplayInfo { width: 1, height: 1 });
    assert_eq!((q.x, q.y), (-230, -90));
}

#[test]
fn center_offset_values() {
    assert_eq!(center_offset(10, 4), 3);
    assert_eq!(center_offset(11, 4), 3);
    assert_eq!(center_offset(4, 4), 0);
    assert_eq!(center_offset(4, 7), -2);
    assert_eq!(center_offset(4, 8), -2);
    assert_eq!(center_offset(u32::MAX, 0), (u32::MAX / 2) as i64);
    assert_eq!(center_offset(0, u32::MAX), -((u32::MAX as i64 + 1) / 2));
}

#[test]
fn backdrop_covers_display() {
    let d = DisplayInfo { width: 1920, height: 1080 };
    assert_eq!(backdrop_placement(&d), WindowPlacement { x: 0, y: 0, width: 1920, height: 1080 });
    let e = DisplayInfo { width: 1, height: 3 };
    assert_eq!(backdrop_placement(&e), WindowPlacement { x: 0, y: 0, width: 1, height: 3 });
}

#[test]
fn dialog_margins_within_backdrop() {
    for (w, h) in [(1920u32, 1080u32), (1921, 1081), (100, 50)] {
        let d = DisplayInfo { width: w, height: h };
        let b = backdrop_placement(&d);
        let g = dialog_placement(&d);
        let left = g.x - b.x;
        let right = (b.x + b.width as i64) - (g.x + g.width as i64);
        let top = g.y - b.y;
        let bottom = (b.y + b.height as i64) - (g.y + g.height as i64);
        assert_eq!(right - left, (b.width as i64 - g.width as i64).rem_euclid(2));
        assert_eq!(bottom - top, (b.height as i64 - g.height as i64).rem_euclid(2));
    }
}
