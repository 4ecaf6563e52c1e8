//! The event loop driver: where each event of the platform goes, in either
//! of the two ways of running the loop.

use crate::event::{Event, EventResult, StartCause, WindowEvent};
use crate::ids::WindowId;
use crate::schedule::RepaintSchedule;
use crate::shell::{user_event_result, Shell, ShellView};
use vstd::prelude::*;

verus! {

/// The two ways of running the event loop.
#[derive(Clone, Copy, Debug, PartialEq, Eq, Structural)]
pub enum RunMode {
    /// Run until the application exits, then return to the caller.
    Return,
    /// Run for the rest of the process and end the process on exit.
    Exit,
}

/// Where an event goes.
pub enum Dispatch {
    /// Shut the application down and leave the loop.
    Shutdown,
    /// The event is dealt with: handle these results.
    Results(Vec<EventResult>),
    /// The pending repaint of the window is consumed: paint it, and handle
    /// the results of that.
    Paint(WindowId),
    /// Do what `Shell::on_resumed` asks, then handle `Shell::resumed_result`.
    Resumed,
    /// Close what `Shell::on_suspended` returns.
    Suspended,
    /// Open the windows that `Shell::pending_windows` names.
    Idle,
    /// Take the event through `Shell::begin_window_event`, the UI, and
    /// `window_event_result`.
    Window { window_id: WindowId, event: WindowEvent },
}

/// What a failure to handle an event leads to.
#[derive(Clone, Copy, Debug, PartialEq, Eq, Structural)]
pub enum Failure {
    /// Shut down, leave the loop, and hand the error to the caller.
    ExitWithError,
    /// End the process.
    Abort,
}

/// Where `event` goes, but for the pending repaints.
pub open spec fn dispatch_of(mode: RunMode, shell: ShellView, event: Event, to: Dispatch) -> bool {
    match event {
        Event::LoopDestroyed => match mode {
            RunMode::Return => to is Shutdown,
            RunMode::Exit => to matches Dispatch::Results(r) && r@ == seq![EventResult::Exit],
        },
        Event::RedrawRequested(window) => to matches Dispatch::Paint(w) && w == window,
        Event::UserEvent(user) => to matches Dispatch::Results(r) && r@ == seq![
            user_event_result(shell, user),
        ],
        Event::NewEvents(StartCause::ResumeTimeReached) => to matches Dispatch::Results(r) && r@
            == seq![EventResult::Wait],
        Event::WindowEvent { window_id, event } => if mode == RunMode::Return && !(shell.running
            is Some && shell.running->0.has_window(window_id)) {
            to matches Dispatch::Results(r) && r@ == seq![EventResult::RepaintNext(window_id)]
        } else {
            to matches Dispatch::Window { window_id: w, event: e } && w == window_id && e == event
        },
        Event::Resumed => to is Resumed,
        Event::Suspended => to is Suspended,
        Event::MainEventsCleared => to is Idle,
        _ => to matches Dispatch::Results(r) && r@ == seq![EventResult::Wait],
    }
}

/// A list of one result.
fn single(result: EventResult) -> (results: Vec<EventResult>)
    ensures
        results@ == seq![result],
{
    let mut results: Vec<EventResult> = Vec::new();
    results.push(result);
    results
}

/// Decides where an event of the platform goes.
///
/// The end of the platform's loop shuts the application down. A redraw
/// that the platform asks for consumes the pending repaint of its window.
/// An event that the loop sent to itself is answered from the shell's
/// state. When the loop returns to its caller, a window event for a window
/// that no viewport owns, as happens after a window was closed and another
/// one opened, leads to a repaint at the next idle pass. Everything else
/// is for the shell.
pub fn dispatch(
    mode: RunMode,
    schedule: &mut RepaintSchedule,
    shell: &Shell,
    event: Event,
) -> (to: Dispatch)
    requires
        old(schedule).wf(),
        shell.wf(),
    ensures
        final(schedule).wf(),
        final(schedule)@ == match event {
            Event::RedrawRequested(window) => old(schedule)@.remove(window),
            _ => old(schedule)@,
        },
        dispatch_of(mode, shell@, event, to),
{
    match event {
        Event::LoopDestroyed => match mode {
            RunMode::Return => Dispatch::Shutdown,
            RunMode::Exit => Dispatch::Results(single(EventResult::Exit)),
        },
        Event::RedrawRequested(window) => {
            schedule.remove(window);
            Dispatch::Paint(window)
        },
        Event::UserEvent(user) => Dispatch::Results(single(shell.on_user_event(user))),
        Event::NewEvents(cause) => Dispatch::Results(single(EventResult::Wait)),
        Event::WindowEvent { window_id, event } => {
            let unknown = match mode {
                RunMode::Return => !shell.has_window(window_id),
                RunMode::Exit => false,
            };
            if unknown {
                Dispatch::Results(single(EventResult::RepaintNext(window_id)))
            } else {
                Dispatch::Window { window_id, event }
            }
        },
        Event::Resumed => Dispatch::Resumed,
        Event::Suspended => Dispatch::Suspended,
        Event::MainEventsCleared => Dispatch::Idle,
        Event::DeviceEvent(_) => Dispatch::Results(single(EventResult::Wait)),
        Event::RedrawEventsCleared => Dispatch::Results(single(EventResult::Wait)),
    }
}

impl RunMode {
    pub open spec fn spec_on_failure(self) -> Failure {
        match self {
            RunMode::Return => Failure::ExitWithError,
            RunMode::Exit => Failure::Abort,
        }
    }

    /// What a failure to handle an event leads to: a loop that returns to
    /// its caller shuts down and hands the error on; a loop that owns the
    /// process ends it.
    #[verifier::when_used_as_spec(spec_on_failure)]
    pub fn on_failure(self) -> (failure: Failure)
        ensures
            failure == self.spec_on_failure(),
    {
        match self {
            RunMode::Return => Failure::ExitWithError,
            RunMode::Exit => Failure::Abort,
        }
    }
}

} // verus!
