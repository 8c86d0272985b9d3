//! Application start: the two windows to open, in order, and how the start
//! reacts to the framework's answers.

use vstd::prelude::*;
use crate::geometry::{
    backdrop_bounds, backdrop_placement, dialog_bounds, dialog_placement, DisplayInfo,
    WindowPlacement,
};

verus! {

/// Whether a window floats above others without system chrome.
#[derive(Clone, Copy, Debug, PartialEq, Eq, Structural)]
pub enum WindowKind {
    Normal,
    PopUp,
}

/// The component that a window shows.
#[derive(Clone, Copy, Debug, PartialEq, Eq, Structural)]
pub enum Surface {
    Backdrop,
    Dialog,
}

/// Everything the framework needs to open one window.
#[derive(Clone, Copy, Debug, PartialEq, Eq, Structural)]
pub struct WindowRequest {
    pub surface: Surface,
    pub placement: WindowPlacement,
    /// Index of the display, in the order the framework listed them.
    pub display: usize,
    pub focus: bool,
    pub show: bool,
    pub movable: bool,
    pub titlebar: bool,
    pub transparent: bool,
    pub kind: WindowKind,
}

/// Why the application could not start.
#[derive(Clone, Copy, Debug, PartialEq, Eq, Structural)]
pub enum BootstrapError {
    /// The framework listed no display.
    NoDisplay,
    /// The framework refused to create a window.
    WindowCreationFailed,
}

/// The backdrop window: full-display, unfocused, borderless, fixed, transparent.
pub open spec fn backdrop_request(d: DisplayInfo) -> WindowRequest {
    WindowRequest {
        surface: Surface::Backdrop,
        placement: backdrop_bounds(d),
        display: 0,
        focus: false,
        show: true,
        movable: false,
        titlebar: false,
        transparent: true,
        kind: WindowKind::PopUp,
    }
}

/// The dialog window: centered, focused, borderless, fixed, transparent.
pub open spec fn dialog_request(d: DisplayInfo) -> WindowRequest {
    WindowRequest {
        surface: Surface::Dialog,
        placement: dialog_bounds(d),
        display: 0,
        focus: true,
        show: true,
        movable: false,
        titlebar: false,
        transparent: true,
        kind: WindowKind::PopUp,
    }
}

/// The windows to open on the primary display `d`: the backdrop, then the
/// dialog above it.
pub open spec fn launch_windows(d: DisplayInfo) -> Seq<WindowRequest> {
    seq![backdrop_request(d), dialog_request(d)]
}

/// The windows to open when the framework lists `displays`: the first one is
/// the primary display; with none listed, the start fails before any window.
pub fn plan_windows(displays: &Vec<DisplayInfo>) -> (r: Result<Vec<WindowRequest>, BootstrapError>)
    ensures
        displays@.len() == 0 ==> r == Err::<Vec<WindowRequest>, BootstrapError>(
            BootstrapError::NoDisplay,
        ),
        displays@.len() > 0 ==> r is Ok && r->Ok_0@ == launch_windows(displays@[0]),
{
    if displays.len() == 0 {
        return Err(BootstrapError::NoDisplay);
    }
    let primary = &displays[0];
    let backdrop = WindowRequest {
        surface: Surface::Backdrop,
        placement: backdrop_placement(primary),
        display: 0,
        focus: false,
        show: true,
        movable: false,
        titlebar: false,
        transparent: true,
        kind: WindowKind::PopUp,
    };
    let dialog = WindowRequest {
        surface: Surface::Dialog,
        placement: dialog_placement(primary),
        display: 0,
        focus: true,
        show: true,
        movable: false,
        titlebar: false,
        transparent: true,
        kind: WindowKind::PopUp,
    };
    let r = vec![backdrop, dialog];
    assert(r@ =~= launch_windows(displays@[0]));
    Ok(r)
}

/// The start of the application, one window at a time. Each window is
/// requested only after the previous one was created; the first refusal ends
/// the start, whatever was already opened.
#[derive(Debug)]
pub struct Launch {
    pub requests: Vec<WindowRequest>,
    /// How many windows the framework has created so far.
    pub opened: usize,
    /// Whether the framework refused a window.
    pub failed: bool,
}

impl Launch {
    pub open spec fn wf(&self) -> bool {
        self.opened <= self.requests@.len()
    }

    /// Whether a window waits to be opened.
    pub open spec fn pending(&self) -> bool {
        !self.failed && self.opened < self.requests@.len()
    }

    /// Starts the application on the displays `displays`.
    pub fn start(displays: &Vec<DisplayInfo>) -> (r: Result<Launch, BootstrapError>)
        ensures
            displays@.len() == 0 ==> r is Err && r->Err_0 == BootstrapError::NoDisplay,
            displays@.len() > 0 ==> r is Ok && r->Ok_0.wf() && r->Ok_0.requests@ == launch_windows(
                displays@[0],
            ) && r->Ok_0.opened == 0 && !r->Ok_0.failed,
    {
        match plan_windows(displays) {
            Ok(requests) => Ok(Launch { requests, opened: 0, failed: false }),
            Err(e) => Err(e),
        }
    }

    /// The window to open now, if any.
    pub fn next_window(&self) -> (r: Option<WindowRequest>)
        requires
            self.wf(),
        ensures
            self.pending() ==> r == Some(self.requests@[self.opened as int]),
            !self.pending() ==> r is None,
    {
        if !self.failed && self.opened < self.requests.len() {
            Some(self.requests[self.opened])
        } else {
            None
        }
    }

    /// Records the framework's answer to the pending window: `created` tells
    /// whether it opened it. A refusal fails the start.
    pub fn window_created(&mut self, created: bool) -> (r: Result<(), BootstrapError>)
        requires
            old(self).wf(),
            old(self).pending(),
        ensures
            final(self).wf(),
            final(self).requests@ == old(self).requests@,
            created ==> r is Ok && final(self).opened == old(self).opened + 1 && !final(self).failed,
            !created ==> r == Err::<(), BootstrapError>(BootstrapError::WindowCreationFailed)
                && final(self).opened == old(self).opened && final(self).failed,
    {
        let total = self.requests.len();
        if created {
            assert(self.opened < total);
            self.opened = self.opened + 1;
            Ok(())
        } else {
            self.failed = true;
            Err(BootstrapError::WindowCreationFailed)
        }
    }

    /// Whether every window was opened.
    pub fn is_complete(&self) -> (r: bool)
        ensures
            r == (!self.failed && self.opened >= self.requests@.len()),
    {
        !self.failed && self.opened >= self.requests.len()
    }
}

} // verus!
