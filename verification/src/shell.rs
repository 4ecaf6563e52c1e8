//! The application shell: what a platform event does to the viewports, and
//! what it asks of the event loop.
//!
//! The shell holds no window, no graphics context and no UI engine. The
//! embedder owns those, tells the shell what happened, and does what the
//! shell's answer asks for.

use crate::event::{EventResult, UserEvent, WindowEvent};
use crate::ids::{Instant, ViewportId, WindowId};
use crate::viewports::{
    ClosedWindow, Reconciled, ViewportOutput, Viewports, ViewportsView, Window,
};
use vstd::prelude::*;

verus! {

/// What the UI engine answered to a window event.
#[derive(Clone, Copy, Debug, PartialEq, Eq, Structural)]
pub struct EventResponse {
    /// The UI used the event for itself.
    pub consumed: bool,
    /// The UI should be painted again.
    pub repaint: bool,
}

/// A viewport and the delay after which the UI wants it painted again, in
/// nanoseconds.
#[derive(Clone, Copy, Debug, PartialEq, Eq, Structural)]
pub struct RepaintAfter {
    pub viewport: ViewportId,
    pub delay: u64,
}

/// What a finished frame of the UI hands to the shell.
pub struct FrameOutput {
    /// The number of the frame.
    pub frame_nr: u64,
    /// When each viewport wants to be painted again.
    pub repaint_after: Vec<RepaintAfter>,
    /// The viewports that the UI declared.
    pub viewports: Vec<ViewportOutput>,
    /// Whether the application has decided to close.
    pub should_close: bool,
}

/// What a finished frame asks of the embedder.
pub struct FrameActions {
    /// What to ask of the event loop.
    pub results: Vec<EventResult>,
    /// What to do to the windows.
    pub reconciled: Reconciled,
}

/// What the platform's wish to redraw a window comes to.
pub enum Paint {
    /// Run a frame of the UI for this viewport and paint it.
    Frame { viewport: ViewportId, record: Window },
    /// Paint nothing; hand these results to the event loop.
    Done(Vec<EventResult>),
}

/// What a `Resumed` event asks of the embedder.
pub enum Resume {
    /// The first one: create the main window, the graphics context and the
    /// application, then report them with `Shell::start`.
    Initialize,
    /// A later one: the application is there; open windows and attach
    /// surfaces for these viewports.
    Reattach(Vec<ViewportId>),
}

/// Where a window event goes after the shell has seen it.
#[derive(Clone, Copy, Debug, PartialEq, Eq, Structural)]
pub struct Forward {
    /// The viewport whose input adapter takes the event, if it has one.
    pub viewport: Option<ViewportId>,
    /// The viewport whose surface has to take the window's new size now.
    pub resized: Option<ViewportId>,
    /// The window to redraw if the UI asks for a repaint: the window of
    /// the event, or for a synchronous child the window that it is painted
    /// with.
    pub repaint: Option<WindowId>,
    /// Whether a repaint that follows has to happen inside the handler.
    pub repaint_asap: bool,
    /// Whether the event is the user's wish to close the main window: then
    /// the application is asked whether it agrees to close.
    pub confirm_close: bool,
}

/// What the shell makes of a window event before the UI sees it.
#[derive(Clone, Copy, Debug, PartialEq, Eq, Structural)]
pub enum WindowEventStep {
    /// The event is dealt with.
    Done(EventResult),
    /// Hand the event to the UI, then ask `window_event_result`.
    Forward(Forward),
}

/// What shutting down asks of the embedder, once.
#[derive(Clone, Copy, Debug, PartialEq, Eq, Structural)]
pub struct Shutdown {
    /// The main window, whose geometry is to be saved.
    pub main_window: Option<WindowId>,
}

/// The shell as a mathematical value.
pub struct ShellView {
    /// The viewports, once the application runs.
    pub running: Option<ViewportsView>,
    /// The number of the last finished frame.
    pub frame_nr: u64,
    /// The viewport that has the keyboard focus.
    pub focused: Option<ViewportId>,
}

/// The open window of `id`.
pub open spec fn window_of(viewports: ViewportsView, id: ViewportId) -> Option<WindowId> {
    if viewports.records.contains_key(id) {
        viewports.records[id].window
    } else {
        None
    }
}

/// The viewport whose input adapter takes the events of `window`.
pub open spec fn input_target(viewports: ViewportsView, window: WindowId) -> Option<ViewportId> {
    match viewports.viewport_of(window) {
        Some(id) => if viewports.records[id].input_state {
            Some(id)
        } else {
            None
        },
        None => None,
    }
}

/// The window to redraw where the UI answers an event of `window` with the
/// wish for a repaint.
pub open spec fn repaint_target(viewports: ViewportsView, window: WindowId) -> Option<WindowId> {
    match viewports.viewport_of(window) {
        Some(id) => viewports.repaint_window(id),
        None => None,
    }
}

/// What the wish of one viewport to be painted again asks of the event
/// loop at the instant `now`: nothing where there is no open window to
/// redraw for it; a redraw at the next idle pass for no delay; a redraw at
/// the instant that the delay leads to; nothing where no instant is that
/// late.
pub open spec fn repaint_result(
    viewports: ViewportsView,
    wish: RepaintAfter,
    now: Instant,
) -> EventResult {
    match viewports.repaint_window(wish.viewport) {
        Some(window) => if wish.delay == 0 {
            EventResult::RepaintNext(window)
        } else {
            match now.checked_add(wish.delay) {
                Some(at) => EventResult::RepaintAt(window, at),
                None => EventResult::Wait,
            }
        },
        None => EventResult::Wait,
    }
}

/// What a finished frame asks of the event loop: to exit where the
/// application has decided to close, else one result for each wish.
pub open spec fn frame_results_of(
    viewports: ViewportsView,
    wishes: Seq<RepaintAfter>,
    should_close: bool,
    now: Instant,
) -> Seq<EventResult> {
    if should_close {
        seq![EventResult::Exit]
    } else {
        Seq::new(wishes.len(), |i: int| repaint_result(viewports, wishes[i], now))
    }
}

/// What an event that the loop sent to itself asks of the loop.
pub open spec fn user_event_result(shell: ShellView, event: UserEvent) -> EventResult {
    match event {
        UserEvent::RequestRepaint { id, when, frame_nr } => match shell.running {
            Some(v) => if frame_nr == shell.frame_nr {
                match v.repaint_window(id) {
                    Some(window) => EventResult::RepaintAt(window, when),
                    None => EventResult::Wait,
                }
            } else {
                EventResult::Wait
            },
            None => EventResult::Wait,
        },
        UserEvent::AccessKitActionRequest { window_id } => if shell.running is Some {
            EventResult::RepaintNext(window_id)
        } else {
            EventResult::Wait
        },
    }
}

/// What the wish to paint a synchronous child inline comes to.
#[derive(Clone, Copy, Debug, PartialEq, Eq, Structural)]
pub enum SyncRender {
    /// The viewport is new and has a record now. Open its window at once,
    /// report it with `set_window` and `set_surface`, and ask
    /// `sync_render_target`.
    Open(ViewportId),
    /// Paint the viewport into this window, inside the frame of its parent.
    Render { viewport: ViewportId, window: WindowId },
    /// There is nothing to paint into: paint nothing.
    Skip,
}

/// Where a viewport that has a record is painted inline: into its open
/// window, where it has one and an input adapter with it.
pub open spec fn sync_target_of(viewports: ViewportsView, id: ViewportId) -> SyncRender {
    if viewports.records.contains_key(id) && viewports.records[id].input_state
        && viewports.records[id].window is Some {
        SyncRender::Render { viewport: id, window: viewports.records[id].window->0 }
    } else {
        SyncRender::Skip
    }
}

/// What the platform's wish to redraw `window` comes to, but for the
/// frame itself.
///
/// A synchronous child is not painted by itself: the wish goes to the
/// window of its parent, to be painted now, and comes to nothing while the
/// parent has no window.
pub open spec fn paint_of(shell: ShellView, window: WindowId, paint: Paint) -> bool {
    match shell.running {
        None => paint matches Paint::Done(results) && results@ == seq![EventResult::Wait],
        Some(viewports) => match viewports.viewport_of(window) {
            None => paint matches Paint::Done(results) && results@ == seq![EventResult::Wait],
            Some(id) => {
                let record = viewports.records[id];
                if record.is_sync_child() {
                    match window_of(viewports, record.pair.parent) {
                        Some(parent) => paint matches Paint::Done(results) && results@
                            == seq![EventResult::RepaintNow(parent)],
                        None => paint matches Paint::Done(results) && results@
                            == Seq::<EventResult>::empty(),
                    }
                } else {
                    paint matches Paint::Frame { viewport, record: r } && viewport == id && r
                        == record
                }
            },
        },
    }
}

/// What a window event asks of the event loop after the UI has seen it.
pub open spec fn spec_window_event_result(
    forward: Forward,
    response: Option<EventResponse>,
    should_close: bool,
) -> EventResult {
    if should_close {
        EventResult::Exit
    } else if response is Some && response->0.repaint && forward.repaint is Some {
        if forward.repaint_asap {
            EventResult::RepaintNow(forward.repaint->0)
        } else {
            EventResult::RepaintNext(forward.repaint->0)
        }
    } else {
        EventResult::Wait
    }
}

/// What a window event asks of the event loop after the UI has seen it:
/// to exit where the application has decided to close; a repaint where the
/// UI asks for one and there is a window to redraw, inside the handler
/// where the event was a change of size; else nothing.
#[verifier::when_used_as_spec(spec_window_event_result)]
pub fn window_event_result(
    forward: Forward,
    response: Option<EventResponse>,
    should_close: bool,
) -> (result: EventResult)
    ensures
        result == spec_window_event_result(forward, response, should_close),
{
    if should_close {
        return EventResult::Exit;
    }
    let asked = match response {
        Some(r) => r.repaint,
        None => false,
    };
    match forward.repaint {
        Some(window) => {
            if !asked {
                EventResult::Wait
            } else if forward.repaint_asap {
                EventResult::RepaintNow(window)
            } else {
                EventResult::RepaintNext(window)
            }
        },
        None => EventResult::Wait,
    }
}

/// A list of one result.
fn single(result: EventResult) -> (results: Vec<EventResult>)
    ensures
        results@ == seq![result],
{
    let mut results: Vec<EventResult> = Vec::new();
    results.push(result);
    results
}

/// What a finished frame asks of the event loop.
pub fn frame_results(
    viewports: &Viewports,
    wishes: &Vec<RepaintAfter>,
    should_close: bool,
    now: Instant,
) -> (results: Vec<EventResult>)
    requires
        viewports.wf(),
    ensures
        results@ == frame_results_of(viewports@, wishes@, should_close, now),
{
    if should_close {
        return single(EventResult::Exit);
    }
    let mut results: Vec<EventResult> = Vec::new();
    let n: usize = wishes.len();
    let mut i: usize = 0;
    while i < n
        invariant
            i <= n,
            n == wishes@.len(),
            viewports.wf(),
            results@.len() == i,
            forall|j: int| 0 <= j < i ==> results@[j] == repaint_result(viewports@, wishes@[j], now),
        decreases n - i,
    {
        let wish = wishes[i];
        let result = match viewports.repaint_window(wish.viewport) {
            Some(window) => {
                if wish.delay == 0 {
                    EventResult::RepaintNext(window)
                } else {
                    match now.checked_add(wish.delay) {
                        Some(at) => EventResult::RepaintAt(window, at),
                        None => EventResult::Wait,
                    }
                }
            },
            None => EventResult::Wait,
        };
        results.push(result);
        i += 1;
    }
    results
}

/// The application shell.
pub struct Shell {
    running: Option<Viewports>,
    frame_nr: u64,
    focused: Option<ViewportId>,
}

impl View for Shell {
    type V = ShellView;

    closed spec fn view(&self) -> ShellView {
        ShellView {
            running: match self.running {
                Some(v) => Some(v@),
                None => None,
            },
            frame_nr: self.frame_nr,
            focused: self.focused,
        }
    }
}

impl Shell {
    /// The registry, where there is one, is sound.
    pub closed spec fn wf(&self) -> bool {
        self.running matches Some(v) ==> v.wf()
    }

    /// A shell whose application has not started. The focus is with the
    /// main viewport.
    pub fn new() -> (shell: Shell)
        ensures
            shell.wf(),
            shell@ == (ShellView {
                running: None,
                frame_nr: 0,
                focused: Some(ViewportId::main()),
            }),
    {
        Shell { running: None, frame_nr: 0, focused: Some(ViewportId::main()) }
    }

    /// While the application runs, the data model's invariants hold of the
    /// viewports; so the main viewport has a record for as long as the
    /// application runs.
    pub proof fn lemma_main_viewport_lives(&self)
        requires
            self.wf(),
        ensures
            self@.running matches Some(v) ==> v.valid() && v.records.contains_key(
                ViewportId::main(),
            ),
    {
    }

    /// Whether the application has started and has not shut down.
    pub fn is_running(&self) -> (r: bool)
        ensures
            r == self@.running is Some,
    {
        self.running.is_some()
    }

    /// The viewports, while the application runs.
    pub fn viewports(&self) -> (v: Option<&Viewports>)
        requires
            self.wf(),
        ensures
            crate::schedule::view_of(v) == self@.running,
            v matches Some(r) ==> r.wf(),
    {
        self.running.as_ref()
    }

    /// The number of the last finished frame; 0 while no application runs.
    pub fn frame_nr(&self) -> (n: u64)
        ensures
            n == if self@.running is Some {
                self@.frame_nr
            } else {
                0
            },
    {
        if self.running.is_some() {
            self.frame_nr
        } else {
            0
        }
    }

    /// The viewport that has the keyboard focus.
    pub fn focused(&self) -> (id: Option<ViewportId>)
        ensures
            id == self@.focused,
    {
        self.focused
    }

    /// Whether the viewport of `window` has the keyboard focus.
    pub fn is_focused(&self, window: WindowId) -> (r: bool)
        requires
            self.wf(),
        ensures
            r == (self@.focused is Some && self@.running is Some
                && self@.running->0.viewport_of(window) == self@.focused),
    {
        match self.focused {
            Some(focused) => match &self.running {
                Some(viewports) => match viewports.get_window_id(window) {
                    Some(id) => id.0 == focused.0,
                    None => false,
                },
                None => false,
            },
            None => false,
        }
    }

    /// Whether `window` is the open window of some viewport.
    pub fn has_window(&self, window: WindowId) -> (r: bool)
        requires
            self.wf(),
        ensures
            r == (self@.running is Some && self@.running->0.has_window(window)),
    {
        match &self.running {
            Some(viewports) => viewports.has_window(window),
            None => false,
        }
    }

    /// The open window of the viewport `id`.
    pub fn get_window_winit_id(&self, id: ViewportId) -> (r: Option<WindowId>)
        ensures
            r == match self@.running {
                Some(v) => window_of(v, id),
                None => None,
            },
    {
        match &self.running {
            Some(viewports) => viewports.get_window_winit_id(id),
            None => None,
        }
    }

    /// The viewport that owns the open window `window`.
    pub fn get_window_id(&self, window: WindowId) -> (r: Option<ViewportId>)
        requires
            self.wf(),
        ensures
            r == match self@.running {
                Some(v) => v.viewport_of(window),
                None => None,
            },
    {
        match &self.running {
            Some(viewports) => viewports.get_window_id(window),
            None => None,
        }
    }

    /// Takes the viewports that the embedder set up at the first `Resumed`
    /// event. Refused, with nothing changed, where an application runs.
    pub fn start(&mut self, viewports: Viewports) -> (started: bool)
        requires
            old(self).wf(),
            viewports.wf(),
        ensures
            final(self).wf(),
            started == old(self)@.running is None,
            final(self)@ == if started {
                ShellView { running: Some(viewports@), frame_nr: 0, ..old(self)@ }
            } else {
                old(self)@
            },
    {
        if self.running.is_some() {
            return false;
        }
        self.running = Some(viewports);
        self.frame_nr = 0;
        true
    }

    /// What a `Resumed` event asks of the embedder.
    pub fn on_resumed(&self) -> (resume: Resume)
        requires
            self.wf(),
        ensures
            match self@.running {
                None => resume is Initialize,
                Some(v) => resume matches Resume::Reattach(ids) && ids@.no_duplicates() && forall|
                    id: ViewportId,
                | #[trigger]
                    ids@.contains(id) <==> v.records.contains_key(id) && v.records[id].surface
                        is None,
            },
    {
        match &self.running {
            Some(viewports) => Resume::Reattach(viewports.without_surface()),
            None => Resume::Initialize,
        }
    }

    /// What the event loop is asked for once the embedder has done what
    /// `on_resumed` asked: to paint the main window now.
    pub fn resumed_result(&self) -> (result: EventResult)
        ensures
            result == match self@.running {
                Some(v) => match window_of(v, ViewportId::main()) {
                    Some(window) => EventResult::RepaintNow(window),
                    None => EventResult::Wait,
                },
                None => EventResult::Wait,
            },
    {
        match self.get_window_winit_id(ViewportId::main()) {
            Some(window) => EventResult::RepaintNow(window),
            None => EventResult::Wait,
        }
    }

    /// The viewports for which a window is to be opened or a surface to be
    /// attached when the loop is idle.
    pub fn pending_windows(&self) -> (ids: Vec<ViewportId>)
        requires
            self.wf(),
        ensures
            ids@.no_duplicates(),
            forall|id: ViewportId| #[trigger]
                ids@.contains(id) <==> self@.running is Some
                    && self@.running->0.records.contains_key(id)
                    && self@.running->0.records[id].surface is None,
    {
        match &self.running {
            Some(viewports) => viewports.without_surface(),
            None => Vec::new(),
        }
    }

    /// Handles a `Suspended` event: every window and surface is given up,
    /// and everything else stays. Returns the windows for the embedder to
    /// close.
    pub fn on_suspended(&mut self) -> (closed: Vec<ClosedWindow>)
        requires
            old(self).wf(),
        ensures
            final(self).wf(),
            final(self)@.frame_nr == old(self)@.frame_nr,
            final(self)@.focused == old(self)@.focused,
            match old(self)@.running {
                None => final(self)@.running is None && closed@.len() == 0,
                Some(pre) => {
                    &&& final(self)@.running matches Some(post)
                    &&& post.builders == pre.builders
                    &&& post.records.dom() == pre.records.dom()
                    &&& forall|id: ViewportId| #[trigger]
                        post.records.contains_key(id) ==> post.records[id] == (Window {
                            window: None,
                            surface: None,
                            ..pre.records[id]
                        })
                    &&& closed@.no_duplicates()
                    &&& forall|c: ClosedWindow| #[trigger]
                        closed@.contains(c) <==> pre.owns(c.viewport, c.window)
                },
            },
    {
        match self.running.take() {
            Some(mut viewports) => {
                let closed = viewports.suspend();
                self.running = Some(viewports);
                closed
            },
            None => Vec::new(),
        }
    }

    /// What the shell makes of a window event before the UI sees it.
    ///
    /// A change of focus moves the focus to the window's viewport, or away.
    /// A change of size resizes the surface, unless a side is zero, and
    /// makes a repaint urgent. A request to close the main window ends the
    /// loop where the application has agreed to close, and else has the
    /// application asked. The end of the main window ends the loop, the end
    /// of another window ends its viewport. Every event that does not end
    /// the loop or a viewport goes on to the UI.
    pub fn begin_window_event(
        &mut self,
        window: WindowId,
        event: WindowEvent,
        should_close: bool,
    ) -> (step: WindowEventStep)
        requires
            old(self).wf(),
        ensures
            final(self).wf(),
            final(self)@.frame_nr == old(self)@.frame_nr,
            match old(self)@.running {
                None => step == WindowEventStep::Done(EventResult::Wait) && final(self)@ == old(
                    self,
                )@,
                Some(pre) => {
                    &&& final(self)@.running matches Some(post)
                    &&& match event {
                        WindowEvent::Destroyed => {
                            &&& final(self)@.focused == old(self)@.focused
                            &&& step matches WindowEventStep::Done(result)
                            &&& destroyed(pre, window, post, result)
                        },
                        WindowEvent::Focused(focused) => {
                            &&& post == pre
                            &&& final(self)@.focused == if focused {
                                pre.viewport_of(window)
                            } else {
                                None
                            }
                            &&& step == WindowEventStep::Forward(
                                Forward {
                                    viewport: input_target(pre, window),
                                    resized: None,
                                    repaint: repaint_target(pre, window),
                                    repaint_asap: false,
                                    confirm_close: false,
                                },
                            )
                        },
                        WindowEvent::Resized { width, height }
                        | WindowEvent::ScaleFactorChanged { width, height } => {
                            &&& final(self)@.focused == old(self)@.focused
                            &&& step matches WindowEventStep::Forward(forward)
                            &&& forward.viewport == input_target(pre, window)
                            &&& forward.repaint == repaint_target(pre, window)
                            &&& forward.repaint_asap
                            &&& !forward.confirm_close
                            &&& resized(pre, window, width, height, post, forward.resized)
                        },
                        WindowEvent::CloseRequested => {
                            &&& post == pre
                            &&& final(self)@.focused == old(self)@.focused
                            &&& step == if should_close && pre.viewport_of(window) == Some(
                                ViewportId::main(),
                            ) {
                                WindowEventStep::Done(EventResult::Exit)
                            } else {
                                WindowEventStep::Forward(
                                    Forward {
                                        viewport: input_target(pre, window),
                                        resized: None,
                                        repaint: repaint_target(pre, window),
                                        repaint_asap: false,
                                        confirm_close: pre.viewport_of(window) == Some(
                                            ViewportId::main(),
                                        ),
                                    },
                                )
                            }
                        },
                        _ => {
                            &&& post == pre
                            &&& final(self)@.focused == old(self)@.focused
                            &&& step == WindowEventStep::Forward(
                                Forward {
                                    viewport: input_target(pre, window),
                                    resized: None,
                                    repaint: repaint_target(pre, window),
                                    repaint_asap: false,
                                    confirm_close: false,
                                },
                            )
                        },
                    }
                },
            },
    {
        if let WindowEvent::Destroyed = event {
            return WindowEventStep::Done(self.on_window_destroyed(window));
        }
        let mut viewports = match self.running.take() {
            Some(v) => v,
            None => {
                return WindowEventStep::Done(EventResult::Wait);
            },
        };
        let owner = viewports.get_window_id(window);
        let target = match owner {
            Some(id) => {
                match viewports.get(id) {
                    Some(record) => {
                        if record.input_state {
                            Some(id)
                        } else {
                            None
                        }
                    },
                    None => None,
                }
            },
            None => None,
        };
        let repaint = match owner {
            Some(id) => viewports.repaint_window(id),
            None => None,
        };
        let plain = WindowEventStep::Forward(
            Forward {
                viewport: target,
                resized: None,
                repaint,
                repaint_asap: false,
                confirm_close: false,
            },
        );
        let step = match event {
            WindowEvent::Focused(focused) => {
                self.focused = if focused {
                    owner
                } else {
                    None
                };
                plain
            },
            WindowEvent::Resized { width, height } => {
                let resized = viewports.resize(window, width, height);
                WindowEventStep::Forward(
                    Forward {
                        viewport: target,
                        resized,
                        repaint,
                        repaint_asap: true,
                        confirm_close: false,
                    },
                )
            },
            WindowEvent::ScaleFactorChanged { width, height } => {
                let resized = viewports.resize(window, width, height);
                WindowEventStep::Forward(
                    Forward {
                        viewport: target,
                        resized,
                        repaint,
                        repaint_asap: true,
                        confirm_close: false,
                    },
                )
            },
            WindowEvent::CloseRequested => {
                let main = match owner {
                    Some(id) => id.is_main(),
                    None => false,
                };
                if should_close && main {
                    WindowEventStep::Done(EventResult::Exit)
                } else {
                    WindowEventStep::Forward(
                        Forward {
                            viewport: target,
                            resized: None,
                            repaint,
                            repaint_asap: false,
                            confirm_close: main,
                        },
                    )
                }
            },
            _ => plain,
        };
        self.running = Some(viewports);
        step
    }

    /// What an event that the loop sent to itself asks of the loop.
    ///
    /// A request to repaint counts only if no frame was finished since it
    /// was made: then the window that the viewport is painted with, if
    /// there is one, is to be redrawn at the instant asked for. A request of an assistive technology is
    /// input, and leads to a repaint of its window.
    pub fn on_user_event(&self, event: UserEvent) -> (result: EventResult)
        requires
            self.wf(),
        ensures
            result == user_event_result(self@, event),
    {
        match event {
            UserEvent::RequestRepaint { id, when, frame_nr } => {
                match &self.running {
                    Some(viewports) => {
                        if self.frame_nr == frame_nr {
                            match viewports.repaint_window(id) {
                                Some(window) => EventResult::RepaintAt(window, when),
                                None => EventResult::Wait,
                            }
                        } else {
                            EventResult::Wait
                        }
                    },
                    None => EventResult::Wait,
                }
            },
            UserEvent::AccessKitActionRequest { window_id } => {
                if self.running.is_some() {
                    EventResult::RepaintNext(window_id)
                } else {
                    EventResult::Wait
                }
            },
        }
    }

    /// What the platform's wish to redraw `window` comes to.
    pub fn begin_paint(&self, window: WindowId) -> (paint: Paint)
        requires
            self.wf(),
        ensures
            paint_of(self@, window, paint),
    {
        let viewports = match &self.running {
            Some(v) => v,
            None => {
                return Paint::Done(single(EventResult::Wait));
            },
        };
        let id = match viewports.get_window_id(window) {
            Some(id) => id,
            None => {
                return Paint::Done(single(EventResult::Wait));
            },
        };
        let record = viewports.get(id).unwrap();
        if record.is_sync_child() {
            match viewports.get_window_winit_id(record.pair.parent) {
                Some(parent) => Paint::Done(single(EventResult::RepaintNow(parent))),
                None => Paint::Done(Vec::new()),
            }
        } else {
            Paint::Frame { viewport: id, record }
        }
    }

    /// Takes the output of a finished frame: remembers its number,
    /// reconciles the viewports with those that the frame declared, and
    /// turns the viewports' wishes to be painted again into results for the
    /// event loop, read against the windows that are open after the
    /// reconciliation.
    pub fn end_paint(&mut self, frame: &FrameOutput, now: Instant) -> (actions: FrameActions)
        requires
            old(self).wf(),
        ensures
            final(self).wf(),
            final(self)@.focused == old(self)@.focused,
            match old(self)@.running {
                None => {
                    &&& final(self)@ == old(self)@
                    &&& actions.results@ == seq![EventResult::Wait]
                    &&& actions.reconciled.closed@.len() == 0
                    &&& actions.reconciled.commands@.len() == 0
                },
                Some(pre) => {
                    &&& final(self)@.running matches Some(post)
                    &&& final(self)@.frame_nr == frame.frame_nr
                    &&& crate::viewports::reconciled(pre, frame.viewports@, post)
                    &&& actions.results@ == frame_results_of(
                        post,
                        frame.repaint_after@,
                        frame.should_close,
                        now,
                    )
                    &&& crate::viewports::asked_of(
                        pre,
                        frame.viewports@,
                        post,
                        actions.reconciled,
                    )
                },
            },
    {
        let mut viewports = match self.running.take() {
            Some(v) => v,
            None => {
                return FrameActions {
                    results: single(EventResult::Wait),
                    reconciled: Reconciled { closed: Vec::new(), commands: Vec::new() },
                };
            },
        };
        let reconciled = viewports.reconcile(&frame.viewports);
        let results = frame_results(&viewports, &frame.repaint_after, frame.should_close, now);
        self.frame_nr = frame.frame_nr;
        self.running = Some(viewports);
        FrameActions { results, reconciled }
    }

    /// Installs the OS window that the embedder opened for `id`; see
    /// `Viewports::set_window`.
    pub fn set_window(&mut self, id: ViewportId, window: WindowId) -> (installed: bool)
        requires
            old(self).wf(),
        ensures
            final(self).wf(),
            final(self)@.frame_nr == old(self)@.frame_nr,
            final(self)@.focused == old(self)@.focused,
            match old(self)@.running {
                None => !installed && final(self)@.running is None,
                Some(pre) => {
                    &&& final(self)@.running matches Some(post)
                    &&& post.builders == pre.builders
                    &&& installed == (pre.records.contains_key(id) && (pre.viewport_of(window)
                        is None || pre.viewport_of(window) == Some(id)))
                    &&& installed ==> post.records == pre.records.insert(
                        id,
                        Window {
                            window: Some(window),
                            surface: if pre.records[id].window == Some(window) {
                                pre.records[id].surface
                            } else {
                                None
                            },
                            input_state: true,
                            ..pre.records[id]
                        },
                    )
                    &&& !installed ==> post.records == pre.records
                },
            },
    {
        match self.running.take() {
            Some(mut viewports) => {
                let installed = viewports.set_window(id, window);
                self.running = Some(viewports);
                installed
            },
            None => false,
        }
    }

    /// Attaches a graphics surface to the open window of `id`; see
    /// `Viewports::set_surface`.
    pub fn set_surface(&mut self, id: ViewportId, width: u32, height: u32) -> (attached: bool)
        requires
            old(self).wf(),
        ensures
            final(self).wf(),
            final(self)@.frame_nr == old(self)@.frame_nr,
            final(self)@.focused == old(self)@.focused,
            match old(self)@.running {
                None => !attached && final(self)@.running is None,
                Some(pre) => {
                    &&& final(self)@.running matches Some(post)
                    &&& post.builders == pre.builders
                    &&& attached == (pre.records.contains_key(id) && pre.records[id].window
                        is Some)
                    &&& attached ==> post.records == pre.records.insert(
                        id,
                        Window {
                            surface: Some(crate::viewports::SurfaceSize::clamped(width, height)),
                            ..pre.records[id]
                        },
                    )
                    &&& !attached ==> post.records == pre.records
                },
            },
    {
        match self.running.take() {
            Some(mut viewports) => {
                let attached = viewports.set_surface(id, width, height);
                self.running = Some(viewports);
                attached
            },
            None => false,
        }
    }

    /// Detaches the graphics surface of `id`, as after a failure to attach
    /// it to the painter: the viewport is not painted in this frame, and
    /// comes up again among the `pending_windows`.
    pub fn drop_surface(&mut self, id: ViewportId)
        requires
            old(self).wf(),
        ensures
            final(self).wf(),
            final(self)@.frame_nr == old(self)@.frame_nr,
            final(self)@.focused == old(self)@.focused,
            match old(self)@.running {
                None => final(self)@.running is None,
                Some(pre) => {
                    &&& final(self)@.running matches Some(post)
                    &&& post.builders == pre.builders
                    &&& post.records == if pre.records.contains_key(id) {
                        pre.records.insert(id, Window { surface: None, ..pre.records[id] })
                    } else {
                        pre.records
                    }
                },
            },
    {
        match self.running.take() {
            Some(mut viewports) => {
                viewports.drop_surface(id);
                self.running = Some(viewports);
            },
            None => {},
        }
    }

    /// Handles the wish of the UI, in the middle of a frame, to paint a
    /// synchronous child now. A viewport that is new is declared and gets
    /// its window at once; one that has a record is painted into its
    /// window, or not at all while it has none.
    pub fn begin_sync_render(&mut self, output: &ViewportOutput) -> (render: SyncRender)
        requires
            old(self).wf(),
        ensures
            final(self).wf(),
            final(self)@.frame_nr == old(self)@.frame_nr,
            final(self)@.focused == old(self)@.focused,
            match old(self)@.running {
                None => render is Skip && final(self)@.running is None,
                Some(pre) => {
                    &&& final(self)@.running matches Some(post)
                    &&& if pre.records.contains_key(output.pair.this) {
                        post == pre && render == sync_target_of(pre, output.pair.this)
                    } else {
                        crate::viewports::declared_step(pre, *output, post) && render
                            == SyncRender::Open(output.pair.this)
                    }
                },
            },
    {
        let mut viewports = match self.running.take() {
            Some(v) => v,
            None => {
                return SyncRender::Skip;
            },
        };
        let id = output.pair.this;
        let render = match viewports.get(id) {
            Some(record) => {
                match record.window {
                    Some(window) => {
                        if record.input_state {
                            SyncRender::Render { viewport: id, window }
                        } else {
                            SyncRender::Skip
                        }
                    },
                    None => SyncRender::Skip,
                }
            },
            None => {
                let _ = viewports.declare(output);
                SyncRender::Open(id)
            },
        };
        self.running = Some(viewports);
        render
    }

    /// Where the viewport `id` is painted inline.
    pub fn sync_render_target(&self, id: ViewportId) -> (render: SyncRender)
        ensures
            render == match self@.running {
                Some(v) => sync_target_of(v, id),
                None => SyncRender::Skip,
            },
    {
        match &self.running {
            Some(viewports) => match viewports.get(id) {
                Some(record) => match record.window {
                    Some(window) => {
                        if record.input_state {
                            SyncRender::Render { viewport: id, window }
                        } else {
                            SyncRender::Skip
                        }
                    },
                    None => SyncRender::Skip,
                },
                None => SyncRender::Skip,
            },
            None => SyncRender::Skip,
        }
    }

    /// Handles the end of a window that the platform destroyed. The end of
    /// the main window is the end of the application: the answer is `Exit`,
    /// and shutting down is left to the handling of that. The record of
    /// another viewport is dropped.
    pub fn on_window_destroyed(&mut self, window: WindowId) -> (result: EventResult)
        requires
            old(self).wf(),
        ensures
            final(self).wf(),
            final(self)@.frame_nr == old(self)@.frame_nr,
            final(self)@.focused == old(self)@.focused,
            match old(self)@.running {
                None => result == EventResult::Wait && final(self)@.running is None,
                Some(pre) => final(self)@.running matches Some(post) && destroyed(
                    pre,
                    window,
                    post,
                    result,
                ),
            },
    {
        let mut viewports = match self.running.take() {
            Some(v) => v,
            None => {
                return EventResult::Wait;
            },
        };
        let result = match viewports.get_window_id(window) {
            Some(id) => {
                if id.is_main() {
                    EventResult::Exit
                } else {
                    let _ = viewports.remove(id);
                    EventResult::Wait
                }
            },
            None => EventResult::Wait,
        };
        self.running = Some(viewports);
        result
    }

    /// Shuts the application down: the viewports are gone, and the embedder
    /// is asked, once, to save the application's state, to tell the
    /// application, and to free what it holds for painting. A shell whose
    /// application does not run has nothing to shut down.
    pub fn save_and_destroy(&mut self) -> (shutdown: Option<Shutdown>)
        ensures
            final(self).wf(),
            final(self)@ == after_shutdown(old(self)@),
            shutdown == shutdown_of(old(self)@),
    {
        match self.running.take() {
            Some(viewports) => Some(
                Shutdown { main_window: viewports.get_window_winit_id(ViewportId::main()) },
            ),
            None => None,
        }
    }
}

/// The registry `post` is `pre` after the window `window` changed its inner
/// size, and `resized` is the viewport whose surface took the new size.
pub open spec fn resized(
    pre: ViewportsView,
    window: WindowId,
    width: u32,
    height: u32,
    post: ViewportsView,
    resized: Option<ViewportId>,
) -> bool {
    &&& post.builders == pre.builders
    &&& match pre.viewport_of(window) {
        Some(id) => if width > 0 && height > 0 && pre.records[id].surface is Some {
            &&& resized == Some(id)
            &&& post.records == pre.records.insert(
                id,
                Window {
                    surface: Some(crate::viewports::SurfaceSize { width, height }),
                    ..pre.records[id]
                },
            )
        } else {
            resized is None && post.records == pre.records
        },
        None => resized is None && post.records == pre.records,
    }
}

/// The registry `post` is `pre` after the platform destroyed `window`,
/// and `result` is what that asks of the event loop: the end of the main
/// window is the end of the application; the record of another viewport is
/// dropped with its window.
pub open spec fn destroyed(
    pre: ViewportsView,
    window: WindowId,
    post: ViewportsView,
    result: EventResult,
) -> bool {
    match pre.viewport_of(window) {
        None => result == EventResult::Wait && post == pre,
        Some(id) => if id.is_main() {
            result == EventResult::Exit && post == pre
        } else {
            &&& result == EventResult::Wait
            &&& post.records == pre.records.remove(id)
            &&& post.builders == pre.builders.remove(id)
        },
    }
}

/// The end of the main window is the end of the application: where the
/// platform destroys the window of the main viewport, the loop is asked to
/// exit, and the viewports stay as they are until it has shut down.
pub proof fn lemma_main_window_destroyed_is_exit(
    pre: ViewportsView,
    window: WindowId,
    post: ViewportsView,
    result: EventResult,
)
    requires
        pre.valid(),
        pre.owns(ViewportId::main(), window),
        destroyed(pre, window, post, result),
    ensures
        result == EventResult::Exit,
        post == pre,
{
    crate::viewports::lemma_viewport_of(pre, ViewportId::main(), window);
}

/// The shell after it was shut down.
pub open spec fn after_shutdown(shell: ShellView) -> ShellView {
    ShellView { running: None, ..shell }
}

/// What shutting the shell down asks of the embedder.
pub open spec fn shutdown_of(shell: ShellView) -> Option<Shutdown> {
    match shell.running {
        Some(v) => Some(Shutdown { main_window: window_of(v, ViewportId::main()) }),
        None => None,
    }
}

/// Shutting down twice is shutting down once: the second time nothing is
/// asked of the embedder, and nothing changes.
pub proof fn lemma_shutdown_idempotent(shell: ShellView)
    ensures
        after_shutdown(after_shutdown(shell)) == after_shutdown(shell),
        shutdown_of(after_shutdown(shell)) is None,
{
}

/// Handling the results of a frame in which no viewport asks to be
/// painted in the handler leaves, for a window that some result asks to
/// repaint at the next idle pass or that was due before, a pending repaint
/// that is due.
pub proof fn lemma_due_after_results(
    pending: Map<WindowId, Instant>,
    results: Seq<EventResult>,
    now: Instant,
    window: WindowId,
)
    requires
        forall|k: int| 0 <= k < results.len() ==> !(#[trigger] results[k] is RepaintNow),
        crate::schedule::due(pending, window, now) || exists|k: int|
            0 <= k < results.len() && #[trigger] results[k] == EventResult::RepaintNext(window),
    ensures
        crate::schedule::due(crate::schedule::after_results(pending, results, now), window, now),
    decreases results.len(),
{
    if results.len() > 0 {
        let shorter = results.drop_last();
        let last = results.last();
        if last != EventResult::RepaintNext(window) {
            assert(crate::schedule::due(pending, window, now) || exists|k: int|
                0 <= k < shorter.len() && #[trigger] shorter[k] == EventResult::RepaintNext(window)) by {
                if !crate::schedule::due(pending, window, now) {
                    let k = choose|k: int|
                        0 <= k < results.len() && #[trigger] results[k] == EventResult::RepaintNext(
                            window,
                        );
                    assert(shorter[k] == EventResult::RepaintNext(window));
                }
            }
            lemma_due_after_results(pending, shorter, now, window);
        }
    }
}

/// A viewport that asked, in the frame that just ended, to be painted
/// again without delay has the window that it is painted with redrawn at
/// the next idle pass, whatever else is pending and whatever else the
/// frame asked for.
pub proof fn lemma_zero_delay_redraws_at_next_idle(
    pending: Map<WindowId, Instant>,
    viewports: ViewportsView,
    wishes: Seq<RepaintAfter>,
    i: int,
    now: Instant,
    later: Instant,
)
    requires
        viewports.valid(),
        0 <= i < wishes.len(),
        wishes[i].delay == 0,
        viewports.repaint_window(wishes[i].viewport) is Some,
        now.0 <= later.0,
    ensures
        crate::schedule::redraws(
            crate::schedule::after_results(
                pending,
                frame_results_of(viewports, wishes, false, now),
                now,
            ),
            later,
            Some(viewports),
            viewports.repaint_window(wishes[i].viewport)->0,
        ),
{
    let window = viewports.repaint_window(wishes[i].viewport)->0;
    let results = frame_results_of(viewports, wishes, false, now);
    assert(results[i] == EventResult::RepaintNext(window));
    lemma_due_after_results(pending, results, now, window);
    crate::viewports::lemma_repaint_window(viewports, wishes[i].viewport);
}

} // verus!
