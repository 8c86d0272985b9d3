use modal_dialog::dialog::{Backdrop, DialogBox};
use modal_dialog::element::{Axis, Color, Corners, Handler, Justify, Length, Shadow, Sides};

#[test]
fn backdrop_is_translucent_black_scrim() {
    let t = Backdrop.render();
    assert!(t.children.is_empty());
    assert_eq!(t.on_mouse_up, None);
    assert_eq!(t.on_key_down, None);
    assert_eq!(t.text, None);
    assert_eq!(t.style.width, Length::Full);
    assert_eq!(t.style.height, Length::Full);
    assert_eq!(t.style.background, Some(Color { rgb: 0x000000, alpha_percent: 30 }));
}

#[test]
fn render_twice_gives_same_trees() {
    assert_eq!(Backdrop.render(), Backdrop.render());
    assert_eq!(DialogBox.render(), DialogBox.render());
}

#[test]
fn dialog_outer_container_takes_keys() {
    let t = DialogBox.render();
    assert_eq!(t.on_key_down, Some(Handler::OnEscape));
    assert!(t.style.flex);
    assert_eq!(t.style.justify, Justify::Center);
    assert!(t.style.center_items);
    assert_eq!(t.children.len(), 1);
}

#[test]
fn dialog_panel_is_rounded_and_clipped() {
    let t = DialogBox.render();
    let panel = &t.children[0];
    assert_eq!(panel.style.axis, Axis::Column);
    assert_eq!(panel.style.corners, Corners::Px(10));
    assert_eq!(panel.style.shadow, Shadow::Large);
    assert!(panel.style.clip);
    assert_eq!(panel.children.len(), 2);
}

#[test]
fn dialog_titlebar_has_three_glyphs() {
    let t = DialogBox.render();
    let bar = &t.children[0].children[0];
    assert_eq!(bar.style.height, Length::Px(22));
    assert_eq!(bar.style.border.map(|b| b.sides), Some(Sides::Bottom));
    let fills: Vec<u32> = bar.children.iter().map(|g| g.style.background.unwrap().rgb).collect();
    assert_eq!(fills, vec![0xFF5F57, 0xFFBD2E, 0x28C940]);
    for g in &bar.children {
        assert_eq!(g.style.corners, Corners::Full);
        assert_eq!(g.style.width, Length::Px(12));
    }
    assert_eq!(bar.children[0].on_mouse_up, Some(Handler::OnCancelClicked));
    assert!(bar.children[0].style.pointer_cursor);
    assert_eq!(bar.children[1].on_mouse_up, None);
    assert_eq!(bar.children[2].on_mouse_up, None);
}

#[test]
fn dialog_message_and_buttons() {
    let t = DialogBox.render();
    let content = &t.children[0].children[1];
    assert_eq!(content.children.len(), 2);
    let message = &content.children[0].children[0];
    assert_eq!(message.text.as_deref(), Some("Hello world!"));
    assert_eq!(message.style.text.map(|s| s.size), Some(13));
    assert_eq!(message.style.text.and_then(|s| s.line_height_percent), Some(140));
    let buttons = &content.children[1];
    assert_eq!(buttons.style.justify, Justify::End);
    assert_eq!(buttons.children.len(), 2);
    let cancel = &buttons.children[0];
    let ok = &buttons.children[1];
    assert_eq!(cancel.text.as_deref(), Some("Cancel"));
    assert_eq!(cancel.on_mouse_up, Some(Handler::OnCancelClicked));
    assert_eq!(cancel.style.background, Some(Color::opaque(0xFFFFFF)));
    assert_eq!(cancel.style.hover_background, Some(Color::opaque(0xF8F8F8)));
    assert!(cancel.style.border.is_some());
    assert_eq!(ok.text.as_deref(), Some("Ok"));
    assert_eq!(ok.on_mouse_up, Some(Handler::OnOkClicked));
    assert_eq!(ok.style.background, Some(Color::opaque(0x007AFF)));
    assert_eq!(ok.style.hover_background, Some(Color::opaque(0x0068DB)));
    assert!(ok.style.border.is_none());
    assert_eq!(ok.style.min_width, 90);
    assert_eq!(ok.style.height, Length::Px(32));
}
