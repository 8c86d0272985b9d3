use modal_dialog::dialog::DialogBox;
use modal_dialog::element::Handler;
use modal_dialog::lifecycle::{escape_key, Action, DialogState, Lifecycle};

#[test]
fn starts_open() {
    let app = Lifecycle::new();
    assert_eq!(app.state, DialogState::Open);
    assert!(app.is_open());
}

#[test]
fn ok_click_requests_quit_once() {
    let dialog = DialogBox;
    let mut app = Lifecycle::new();
    assert_eq!(dialog.on_ok_clicked(&mut app), Action::RequestQuit);
    assert_eq!(app.state, DialogState::Closed);
    assert!(!app.is_open());
    assert_eq!(dialog.on_ok_clicked(&mut app), Action::Ignore);
    assert_eq!(app.state, DialogState::Closed);
}

#[test]
fn cancel_click_requests_quit() {
    let dialog = DialogBox;
    let mut app = Lifecycle::new();
    assert_eq!(dialog.on_cancel_clicked(&mut app), Action::RequestQuit);
    assert_eq!(dialog.on_cancel_clicked(&mut app), Action::Ignore);
}

#[test]
fn escape_requests_quit() {
    let dialog = DialogBox;
    let mut app = Lifecycle::new();
    assert_eq!(dialog.on_escape("escape", &mut app), Action::RequestQuit);
    assert_eq!(app.state, DialogState::Closed);
    assert_eq!(dialog.on_escape("escape", &mut app), Action::Ignore);
}

#[test]
fn other_keys_are_ignored() {
    let dialog = DialogBox;
    let mut app = Lifecycle::new();
    for key in ["a", "enter", "Escape", "escape ", "", "space"] {
        assert_eq!(dialog.on_escape(key, &mut app), Action::Ignore);
        assert_eq!(app.state, DialogState::Open);
    }
}

#[test]
fn escape_key_names() {
    assert!(escape_key("escape"));
    assert!(!escape_key("esc"));
    assert!(!escape_key("ESCAPE"));
    assert!(!escape_key(""));
}

#[test]
fn any_mix_of_handlers_quits_exactly_once() {
    let dialog = DialogBox;
    let orders = [
        vec![Handler::OnOkClicked, Handler::OnCancelClicked, Handler::OnEscape],
        vec![Handler::OnEscape, Handler::OnEscape],
        vec![Handler::OnCancelClicked, Handler::OnOkClicked, Handler::OnOkClicked, Handler::OnEscape],
        vec![Handler::OnOkClicked],
    ];
    for calls in orders {
        let mut app = Lifecycle::new();
        let mut quits = 0;
        for h in calls {
            if dialog.invoke(h, "escape", &mut app) == Action::RequestQuit {
                quits += 1;
            }
        }
        assert_eq!(quits, 1);
        assert_eq!(app.state, DialogState::Closed);
    }
}

#[test]
fn request_close_on_closed_dialog() {
    let mut app = Lifecycle { state: DialogState::Closed };
    assert_eq!(app.request_close(), Action::Ignore);
    assert_eq!(app.state, DialogState::Closed);
}
