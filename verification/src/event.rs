//! What an event asks of the event loop, and the events that the loop sends
//! to itself.

use crate::ids::{Instant, ViewportId, WindowId};
use vstd::prelude::*;

verus! {

/// What handling an event asks of the event loop.
#[derive(Clone, Copy, Debug, PartialEq, Eq, Structural)]
pub enum EventResult {
    /// Nothing to paint.
    Wait,
    /// Paint the window inside the handler of the event. For the few events,
    /// such as a live resize, after which a platform shows what is in the
    /// window at once.
    RepaintNow(WindowId),
    /// Ask for a redraw of the window as soon as the loop is idle, so that
    /// several input events are handled in one frame.
    RepaintNext(WindowId),
    /// Ask for a redraw of the window at the given instant.
    RepaintAt(WindowId, Instant),
    /// Shut down.
    Exit,
}

/// An event that the event loop sends to itself.
#[derive(Clone, Copy, Debug, PartialEq, Eq, Structural)]
pub enum UserEvent {
    /// The UI asks for a repaint.
    RequestRepaint {
        /// What to repaint.
        id: ViewportId,
        /// When to repaint.
        when: Instant,
        /// The number of the frame in which the repaint was asked for.
        frame_nr: u64,
    },
    /// An assistive technology asks for an action in a window.
    AccessKitActionRequest {
        /// The window that the action is for.
        window_id: WindowId,
    },
}

/// Why the platform started a new round of events.
#[derive(Clone, Copy, Debug, PartialEq, Eq, Structural)]
pub enum StartCause {
    /// The instant that the loop waited for was reached.
    ResumeTimeReached,
    /// An event arrived before the instant that the loop waited for.
    WaitCancelled,
    /// The loop was polling.
    Poll,
    /// The loop has just started.
    Init,
}

/// An event of an input device that belongs to no window.
#[derive(Clone, Copy, Debug, PartialEq, Eq, Structural)]
pub enum DeviceEvent {
    Added,
    Removed,
    MouseMotion,
    MouseWheel,
    Motion,
    Button,
    Key,
    Text,
}

/// An event of one window, with what the decisions of the loop read of it.
#[derive(Clone, Copy, Debug, PartialEq, Eq, Structural)]
pub enum WindowEvent {
    /// The inner size of the window changed, to this size in physical pixels.
    Resized { width: u32, height: u32 },
    Moved,
    /// The user asked to close the window.
    CloseRequested,
    Destroyed,
    DroppedFile,
    HoveredFile,
    HoveredFileCancelled,
    ReceivedCharacter,
    /// The window gained or lost the keyboard focus.
    Focused(bool),
    KeyboardInput,
    ModifiersChanged,
    Ime,
    CursorMoved,
    CursorEntered,
    CursorLeft,
    MouseWheel,
    MouseInput,
    TouchpadMagnify,
    SmartMagnify,
    TouchpadRotate,
    TouchpadPressure,
    AxisMotion,
    Touch,
    /// The scale factor of the window changed; this is its new inner size.
    ScaleFactorChanged { width: u32, height: u32 },
    ThemeChanged,
    Occluded,
}

/// An event of the platform's event loop.
#[derive(Clone, Copy, Debug, PartialEq, Eq, Structural)]
pub enum Event {
    /// A new round of events starts.
    NewEvents(StartCause),
    WindowEvent { window_id: WindowId, event: WindowEvent },
    DeviceEvent(DeviceEvent),
    UserEvent(UserEvent),
    /// The application is in the background and loses its windows' surfaces.
    Suspended,
    /// The application has started, or is back in the foreground.
    Resumed,
    /// All events of this round were handed out: the loop is idle.
    MainEventsCleared,
    /// The platform asks for the window to be redrawn.
    RedrawRequested(WindowId),
    RedrawEventsCleared,
    /// The platform's loop ends.
    LoopDestroyed,
}

} // verus!
