//! The dialog's dismissal state machine. The dialog starts open; OK, Cancel,
//! the close glyph and the Escape key all close it, and only the first of them
//! asks the application to quit.

use vstd::prelude::*;
use crate::element::Handler;

verus! {

/// Whether the dialog is still waiting for an answer.
#[derive(Clone, Copy, Debug, PartialEq, Eq, Structural)]
pub enum DialogState {
    Open,
    Closed,
}

/// What the host must do after a handler ran.
#[derive(Clone, Copy, Debug, PartialEq, Eq, Structural)]
pub enum Action {
    /// Ask the framework to terminate the application.
    RequestQuit,
    /// Nothing further.
    Ignore,
}

/// The process-level controller that the dialog's handlers report to.
#[derive(Debug)]
pub struct Lifecycle {
    pub state: DialogState,
}

/// Closing the dialog: an open dialog closes and asks to quit once; a closed
/// one stays closed and asks nothing.
pub open spec fn dismiss(s: DialogState) -> (DialogState, Action) {
    match s {
        DialogState::Open => (DialogState::Closed, Action::RequestQuit),
        DialogState::Closed => (DialogState::Closed, Action::Ignore),
    }
}

/// The name that the framework gives the Escape key.
pub open spec fn is_escape_key(key: Seq<char>) -> bool {
    key == "escape"@
}

/// Whether calling `h` closes the dialog: a click always does, a key only
/// when it is Escape (`key` names the key and matters for `OnEscape` alone).
pub open spec fn closes(h: Handler, key: Seq<char>) -> bool {
    h != Handler::OnEscape || is_escape_key(key)
}

/// The dialog's handler `h`, run in state `s`.
pub open spec fn handle(s: DialogState, h: Handler, key: Seq<char>) -> (DialogState, Action) {
    if closes(h, key) {
        dismiss(s)
    } else {
        (s, Action::Ignore)
    }
}

/// Runs the handler calls `calls` in order from `s`: the state reached, and
/// how many quit requests were made on the way.
pub open spec fn run(s: DialogState, calls: Seq<(Handler, Seq<char>)>) -> (DialogState, nat)
    decreases calls.len(),
{
    if calls.len() == 0 {
        (s, 0)
    } else {
        let (next, action) = handle(s, calls[0].0, calls[0].1);
        let (last, n) = run(next, calls.drop_first());
        (last, if action == Action::RequestQuit { n + 1 } else { n })
    }
}

/// Whether some call of `calls` closes the dialog.
pub open spec fn any_closes(calls: Seq<(Handler, Seq<char>)>) -> bool {
    exists|i: int| 0 <= i < calls.len() && closes(#[trigger] calls[i].0, calls[i].1)
}

impl Lifecycle {
    /// A controller for a dialog that has just been shown.
    pub fn new() -> (r: Lifecycle)
        ensures
            r.state == DialogState::Open,
    {
        Lifecycle { state: DialogState::Open }
    }

    /// Whether the dialog still waits for an answer.
    pub fn is_open(&self) -> (r: bool)
        ensures
            r == (self.state == DialogState::Open),
    {
        match self.state {
            DialogState::Open => true,
            DialogState::Closed => false,
        }
    }

    /// Closes the dialog, asking to quit if it was open.
    pub fn request_close(&mut self) -> (r: Action)
        ensures
            (final(self).state, r) == dismiss(old(self).state),
    {
        match self.state {
            DialogState::Open => {
                self.state = DialogState::Closed;
                Action::RequestQuit
            },
            DialogState::Closed => Action::Ignore,
        }
    }
}

/// Tells whether the key named `key` is Escape.
pub fn escape_key(key: &str) -> (r: bool)
    ensures
        r == is_escape_key(key@),
{
    let name = key.to_owned();
    let escape = "escape".to_owned();
    name == escape
}

/// Any sequence of OK, Cancel and Escape handler calls on an open dialog, in
/// any order, makes exactly one quit request if one of them closes the dialog,
/// and none otherwise; the dialog is then closed, or still open. On a closed
/// dialog no sequence makes any request.
pub proof fn lemma_one_quit_request(calls: Seq<(Handler, Seq<char>)>)
    ensures
        run(DialogState::Open, calls) == (if any_closes(calls) {
            (DialogState::Closed, 1nat)
        } else {
            (DialogState::Open, 0nat)
        }),
        run(DialogState::Closed, calls) == (DialogState::Closed, 0nat),
    decreases calls.len(),
{
    if calls.len() > 0 {
        let rest = calls.drop_first();
        lemma_one_quit_request(rest);
        if any_closes(rest) {
            let i = choose|i: int| 0 <= i < rest.len() && closes(#[trigger] rest[i].0, rest[i].1);
            assert(calls[i + 1] == rest[i]);
        }
        if any_closes(calls) && !closes(calls[0].0, calls[0].1) {
            let i = choose|i: int| 0 <= i < calls.len() && closes(#[trigger] calls[i].0, calls[i].1);
            assert(rest[i - 1] == calls[i]);
        }
    }
}

} // verus!
