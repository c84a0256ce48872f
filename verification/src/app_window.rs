//! The window as the renderer sees it: its size and a flag that a resize is
//! pending, and how window events change them.

use vstd::prelude::*;

verus! {

/// The width of the window when it is created.
pub const INITIAL_WINDOW_WIDTH: u32 = 1920;
/// The height of the window when it is created.
pub const INITIAL_WINDOW_HEIGHT: u32 = 1080;

/// The window's last known size, and whether the swapchain must follow a
/// resize that no frame has taken into account yet.
#[derive(Debug, Clone, Copy, PartialEq, Eq, Structural)]
pub struct AppWindow {
    pub width: u32,
    pub height: u32,
    pub is_resized: bool,
}

/// The window events the application reacts to.
#[derive(Debug, Clone, Copy, PartialEq, Eq, Structural)]
pub enum WindowInput {
    /// The user asked to close the window.
    CloseRequested,
    /// The Escape key was pressed.
    EscapePressed,
    /// The window now has this size.
    Resized { width: u32, height: u32 },
    /// Any other event.
    Other,
}

/// What the application does in answer to a window event.
#[derive(Debug, Clone, Copy, PartialEq, Eq, Structural)]
pub enum WindowResponse {
    /// Destroy the mesh and the renderer, and leave the event loop.
    ShutdownAndExit,
    /// Go on.
    Continue,
}

/// The window after the event, and the application's answer.
pub open spec fn after_window_event(w: AppWindow, input: WindowInput) -> (AppWindow, WindowResponse) {
    match input {
        WindowInput::CloseRequested | WindowInput::EscapePressed => (w, WindowResponse::ShutdownAndExit),
        WindowInput::Resized { width, height } => (
            AppWindow { width, height, is_resized: true },
            WindowResponse::Continue,
        ),
        WindowInput::Other => (w, WindowResponse::Continue),
    }
}

impl AppWindow {
    /// The window as it is created: 1920 by 1080, no resize pending.
    pub fn new() -> (r: AppWindow)
        ensures
            r == (AppWindow { width: INITIAL_WINDOW_WIDTH, height: INITIAL_WINDOW_HEIGHT, is_resized: false }),
    {
        AppWindow { width: INITIAL_WINDOW_WIDTH, height: INITIAL_WINDOW_HEIGHT, is_resized: false }
    }

    /// Answers a window event (see `after_window_event`): closing the window
    /// or pressing Escape shuts down; a resize records the new size and marks
    /// a resize as pending.
    pub fn window_event(&mut self, input: WindowInput) -> (r: WindowResponse)
        ensures
            (*final(self), r) == after_window_event(*old(self), input),
    {
        match input {
            WindowInput::CloseRequested | WindowInput::EscapePressed => WindowResponse::ShutdownAndExit,
            WindowInput::Resized { width, height } => {
                self.width = width;
                self.height = height;
                self.is_resized = true;
                WindowResponse::Continue
            },
            WindowInput::Other => WindowResponse::Continue,
        }
    }

    /// Marks a resize as pending (a frame found the window without area).
    pub fn mark_resized(&mut self)
        ensures
            *final(self) == (AppWindow { is_resized: true, ..*old(self) }),
    {
        self.is_resized = true;
    }

    /// Clears the pending-resize flag and tells whether it was set.
    pub fn take_resized(&mut self) -> (r: bool)
        ensures
            r == old(self).is_resized,
            *final(self) == (AppWindow { is_resized: false, ..*old(self) }),
    {
        let r = self.is_resized;
        self.is_resized = false;
        r
    }
}

/// The application shuts down exactly when the window is closed or Escape is
/// pressed; only a resize changes the window, and it takes the new size and
/// marks a resize as pending.
pub proof fn lemma_window_event_effects(w: AppWindow, input: WindowInput)
    ensures
        after_window_event(w, input).1 == WindowResponse::ShutdownAndExit <==> (input is CloseRequested
            || input is EscapePressed),
        !(input is Resized) ==> after_window_event(w, input).0 == w,
        input matches WindowInput::Resized { width, height } ==> after_window_event(w, input).0 == (AppWindow {
            width,
            height,
            is_resized: true,
        }),
{
}

/// A resize is remembered until a frame takes it: after a `Resized` event,
/// any number of other events that are not resizes leave it pending, and
/// the window keeps the new size.
pub proof fn lemma_resize_stays_pending(w: AppWindow, width: u32, height: u32, later: WindowInput)
    ensures
        ({
            let w1 = after_window_event(w, WindowInput::Resized { width, height }).0;
            let w2 = after_window_event(w1, later).0;
            &&& w1.is_resized
            &&& w2.is_resized
            &&& !(later is Resized) ==> w2.width == width && w2.height == height
        }),
{
}

} // verus!
