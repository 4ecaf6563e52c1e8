use native_run::shell::{frame_results, window_event_result};
use native_run::{
    ClosedWindow, EventResponse, EventResult, Forward, FrameOutput, Instant, Paint, RenderId,
    RepaintAfter, RepaintSchedule, Resume, Shell, Shutdown, SurfaceSize, SyncRender, UserEvent,
    ViewportId, ViewportIdPair, ViewportOutput, Viewports, WaitPolicy, WindowEvent,
    WindowEventStep, WindowId,
};
use std::sync::Arc;

fn titled(title: &str) -> egui::ViewportBuilder {
    egui::ViewportBuilder::default().with_title(title)
}

fn output(id: u64, parent: u64, title: &str) -> ViewportOutput {
    ViewportOutput {
        builder: titled(title),
        pair: ViewportIdPair::new(ViewportId(id), ViewportId(parent)),
        render: None,
    }
}

fn sync_output(id: u64, parent: u64, title: &str) -> ViewportOutput {
    ViewportOutput { render: Some(RenderId(id)), ..output(id, parent, title) }
}

fn frame(frame_nr: u64, viewports: Vec<ViewportOutput>) -> FrameOutput {
    FrameOutput { frame_nr, repaint_after: Vec::new(), viewports, should_close: false }
}

/// A shell whose main viewport has the window 1, with input adapter and surface.
fn running() -> Shell {
    let mut shell = Shell::new();
    assert!(shell.start(Viewports::new(titled("main"), Some(WindowId(1)))));
    assert!(shell.set_window(ViewportId::main(), WindowId(1)));
    assert!(shell.set_surface(ViewportId::main(), 800, 600));
    shell
}

fn forward(viewport: Option<ViewportId>, repaint: Option<WindowId>) -> WindowEventStep {
    WindowEventStep::Forward(Forward {
        viewport,
        resized: None,
        repaint,
        repaint_asap: false,
        confirm_close: false,
    })
}

#[test]
fn a_new_shell_does_not_run() {
    let shell = Shell::new();
    assert!(!shell.is_running());
    assert_eq!(shell.frame_nr(), 0);
    assert!(shell.viewports().is_none());
    assert!(!shell.has_window(WindowId(1)));
    assert!(!shell.is_focused(WindowId(1)));
    assert_eq!(shell.get_window_id(WindowId(1)), None);
    assert_eq!(shell.get_window_winit_id(ViewportId::main()), None);
    assert!(shell.pending_windows().is_empty());
    assert!(matches!(shell.on_resumed(), Resume::Initialize));
    assert_eq!(shell.resumed_result(), EventResult::Wait);
}

#[test]
fn a_shell_starts_once() {
    let mut shell = Shell::new();
    assert!(shell.start(Viewports::new(titled("main"), Some(WindowId(1)))));
    assert!(shell.is_running());
    assert!(!shell.start(Viewports::new(titled("other"), Some(WindowId(2)))));
    assert!(shell.has_window(WindowId(1)));
    assert!(!shell.has_window(WindowId(2)));
    assert_eq!(shell.get_window_winit_id(ViewportId::main()), Some(WindowId(1)));
    assert_eq!(shell.get_window_id(WindowId(1)), Some(ViewportId::main()));
}

#[test]
fn the_main_window_is_painted_after_a_resume() {
    let shell = running();
    assert_eq!(shell.resumed_result(), EventResult::RepaintNow(WindowId(1)));
    match shell.on_resumed() {
        Resume::Reattach(ids) => assert!(ids.is_empty()),
        Resume::Initialize => panic!("the application is there"),
    }
}

#[test]
fn the_focus_starts_with_the_main_viewport() {
    let shell = running();
    assert!(shell.is_focused(WindowId(1)));
    assert!(!shell.is_focused(WindowId(2)));
}

#[test]
fn the_focus_follows_the_windows() {
    let mut shell = running();
    shell.end_paint(&frame(1, vec![output(5, 0, "five")]), Instant(0));
    shell.set_window(ViewportId(5), WindowId(2));
    let step = shell.begin_window_event(WindowId(2), WindowEvent::Focused(true), false);
    assert_eq!(step, forward(Some(ViewportId(5)), Some(WindowId(2))));
    assert!(shell.is_focused(WindowId(2)));
    assert!(!shell.is_focused(WindowId(1)));
    shell.begin_window_event(WindowId(2), WindowEvent::Focused(false), false);
    assert!(!shell.is_focused(WindowId(2)));
    assert!(!shell.is_focused(WindowId(1)));
    shell.begin_window_event(WindowId(99), WindowEvent::Focused(true), false);
    assert!(!shell.is_focused(WindowId(99)));
}

#[test]
fn a_window_event_before_the_start_is_nothing() {
    let mut shell = Shell::new();
    let step = shell.begin_window_event(WindowId(1), WindowEvent::CloseRequested, true);
    assert_eq!(step, WindowEventStep::Done(EventResult::Wait));
    let step = shell.begin_window_event(WindowId(1), WindowEvent::Destroyed, true);
    assert_eq!(step, WindowEventStep::Done(EventResult::Wait));
}

#[test]
fn a_resize_is_urgent_and_reaches_the_surface() {
    let mut shell = running();
    let step =
        shell.begin_window_event(WindowId(1), WindowEvent::Resized { width: 300, height: 200 }, false);
    assert_eq!(
        step,
        WindowEventStep::Forward(Forward {
            viewport: Some(ViewportId::main()),
            resized: Some(ViewportId::main()),
            repaint: Some(WindowId(1)),
            repaint_asap: true,
            confirm_close: false,
        })
    );
    let record = shell.viewports().unwrap().get(ViewportId::main()).unwrap();
    assert_eq!(record.surface, Some(SurfaceSize { width: 300, height: 200 }));
}

#[test]
fn a_resize_to_nothing_touches_no_surface() {
    let mut shell = running();
    let step =
        shell.begin_window_event(WindowId(1), WindowEvent::Resized { width: 0, height: 0 }, false);
    assert_eq!(
        step,
        WindowEventStep::Forward(Forward {
            viewport: Some(ViewportId::main()),
            resized: None,
            repaint: Some(WindowId(1)),
            repaint_asap: true,
            confirm_close: false,
        })
    );
    let step = shell.begin_window_event(
        WindowId(1),
        WindowEvent::ScaleFactorChanged { width: 0, height: 50 },
        false,
    );
    assert!(matches!(step, WindowEventStep::Forward(Forward { resized: None, .. })));
    let record = shell.viewports().unwrap().get(ViewportId::main()).unwrap();
    assert_eq!(record.surface, Some(SurfaceSize { width: 800, height: 600 }));
}

#[test]
fn a_new_scale_factor_resizes_the_surface() {
    let mut shell = running();
    let step = shell.begin_window_event(
        WindowId(1),
        WindowEvent::ScaleFactorChanged { width: 1600, height: 1200 },
        false,
    );
    assert!(matches!(
        step,
        WindowEventStep::Forward(Forward { resized: Some(ViewportId(0)), repaint_asap: true, .. })
    ));
    let record = shell.viewports().unwrap().get(ViewportId::main()).unwrap();
    assert_eq!(record.surface, Some(SurfaceSize { width: 1600, height: 1200 }));
}

#[test]
fn closing_the_main_window_exits_once_the_application_agrees() {
    let mut shell = running();
    let step = shell.begin_window_event(WindowId(1), WindowEvent::CloseRequested, true);
    assert_eq!(step, WindowEventStep::Done(EventResult::Exit));
    let step = shell.begin_window_event(WindowId(1), WindowEvent::CloseRequested, false);
    assert_eq!(
        step,
        WindowEventStep::Forward(Forward {
            viewport: Some(ViewportId::main()),
            resized: None,
            repaint: Some(WindowId(1)),
            repaint_asap: false,
            confirm_close: true,
        })
    );
    let refused = window_event_result(
        Forward {
            viewport: None,
            resized: None,
            repaint: None,
            repaint_asap: false,
            confirm_close: true,
        },
        None,
        false,
    );
    assert_eq!(refused, EventResult::Wait);
}

#[test]
fn closing_another_window_is_for_the_ui() {
    let mut shell = running();
    shell.end_paint(&frame(1, vec![output(5, 0, "five")]), Instant(0));
    shell.set_window(ViewportId(5), WindowId(2));
    let step = shell.begin_window_event(WindowId(2), WindowEvent::CloseRequested, true);
    assert_eq!(step, forward(Some(ViewportId(5)), Some(WindowId(2))));
    assert!(shell.has_window(WindowId(2)));
}

#[test]
fn the_end_of_the_main_window_is_an_exit() {
    let mut shell = running();
    let step = shell.begin_window_event(WindowId(1), WindowEvent::Destroyed, false);
    assert_eq!(step, WindowEventStep::Done(EventResult::Exit));
    assert!(shell.viewports().unwrap().contains(ViewportId::main()));
    assert_eq!(shell.on_window_destroyed(WindowId(1)), EventResult::Exit);
}

#[test]
fn the_end_of_another_window_ends_its_viewport() {
    let mut shell = running();
    shell.end_paint(&frame(1, vec![output(5, 0, "five")]), Instant(0));
    shell.set_window(ViewportId(5), WindowId(2));
    let step = shell.begin_window_event(WindowId(2), WindowEvent::Destroyed, false);
    assert_eq!(step, WindowEventStep::Done(EventResult::Wait));
    assert!(!shell.viewports().unwrap().contains(ViewportId(5)));
    assert!(!shell.has_window(WindowId(2)));
    assert_eq!(shell.on_window_destroyed(WindowId(2)), EventResult::Wait);
}

#[test]
fn other_events_go_to_the_input_adapter_of_the_window() {
    let mut shell = running();
    assert_eq!(
        shell.begin_window_event(WindowId(1), WindowEvent::KeyboardInput, false),
        forward(Some(ViewportId::main()), Some(WindowId(1)))
    );
    assert_eq!(
        shell.begin_window_event(WindowId(9), WindowEvent::CursorMoved, false),
        forward(None, None)
    );
}

#[test]
fn a_window_without_an_input_adapter_takes_no_events() {
    let mut shell = Shell::new();
    shell.start(Viewports::new(titled("main"), Some(WindowId(1))));
    assert_eq!(
        shell.begin_window_event(WindowId(1), WindowEvent::MouseInput, false),
        forward(None, Some(WindowId(1)))
    );
}

#[test]
fn what_a_window_event_asks_for_after_the_ui() {
    let window = WindowId(3);
    let later = Forward {
        viewport: None,
        resized: None,
        repaint: Some(window),
        repaint_asap: false,
        confirm_close: false,
    };
    let asap = Forward { repaint_asap: true, ..later };
    let nowhere = Forward { repaint: None, ..asap };
    let repaint = Some(EventResponse { consumed: true, repaint: true });
    let quiet = Some(EventResponse { consumed: true, repaint: false });
    assert_eq!(window_event_result(later, repaint, false), EventResult::RepaintNext(window));
    assert_eq!(window_event_result(asap, repaint, false), EventResult::RepaintNow(window));
    assert_eq!(window_event_result(asap, quiet, false), EventResult::Wait);
    assert_eq!(window_event_result(asap, None, false), EventResult::Wait);
    assert_eq!(window_event_result(nowhere, repaint, false), EventResult::Wait);
    assert_eq!(window_event_result(asap, repaint, true), EventResult::Exit);
    assert_eq!(window_event_result(later, None, true), EventResult::Exit);
    assert_eq!(window_event_result(nowhere, None, true), EventResult::Exit);
}

#[test]
fn an_event_of_a_synchronous_child_repaints_the_window_it_is_painted_with() {
    let mut shell = running();
    shell.end_paint(&frame(1, vec![sync_output(6, 0, "child")]), Instant(0));
    shell.set_window(ViewportId(6), WindowId(3));
    let step = shell.begin_window_event(WindowId(3), WindowEvent::MouseInput, false);
    assert_eq!(step, forward(Some(ViewportId(6)), Some(WindowId(1))));
    let step =
        shell.begin_window_event(WindowId(3), WindowEvent::Resized { width: 5, height: 5 }, false);
    let forwarded = match step {
        WindowEventStep::Forward(forwarded) => forwarded,
        WindowEventStep::Done(_) => panic!("a resize goes on to the UI"),
    };
    let response = Some(EventResponse { consumed: false, repaint: true });
    assert_eq!(
        window_event_result(forwarded, response, false),
        EventResult::RepaintNow(WindowId(1))
    );
}

#[test]
fn the_wishes_of_synchronous_children_go_to_the_window_they_are_painted_with() {
    let mut shell = running();
    let declared = vec![
        output(5, 0, "five"),
        sync_output(6, 5, "child"),
        sync_output(7, 6, "grandchild"),
        sync_output(8, 40, "orphan"),
        sync_output(9, 10, "loop"),
        sync_output(10, 9, "loop"),
    ];
    shell.end_paint(&frame(1, declared), Instant(0));
    shell.set_window(ViewportId(5), WindowId(2));
    shell.set_window(ViewportId(6), WindowId(3));
    shell.set_window(ViewportId(7), WindowId(4));
    shell.set_window(ViewportId(8), WindowId(5));
    shell.set_window(ViewportId(9), WindowId(6));
    let viewports = shell.viewports().unwrap();
    assert_eq!(viewports.repaint_window(ViewportId::main()), Some(WindowId(1)));
    assert_eq!(viewports.repaint_window(ViewportId(5)), Some(WindowId(2)));
    assert_eq!(viewports.repaint_window(ViewportId(6)), Some(WindowId(2)));
    assert_eq!(viewports.repaint_window(ViewportId(7)), Some(WindowId(2)));
    assert_eq!(viewports.repaint_window(ViewportId(8)), None);
    assert_eq!(viewports.repaint_window(ViewportId(9)), None);
    assert_eq!(viewports.repaint_window(ViewportId(10)), None);
    assert_eq!(viewports.repaint_window(ViewportId(77)), None);
    assert!(viewports.paints_itself(WindowId(1)));
    assert!(viewports.paints_itself(WindowId(2)));
    assert!(!viewports.paints_itself(WindowId(3)));
    assert!(!viewports.paints_itself(WindowId(99)));
    let wishes = vec![
        RepaintAfter { viewport: ViewportId(7), delay: 0 },
        RepaintAfter { viewport: ViewportId(6), delay: 20 },
        RepaintAfter { viewport: ViewportId(8), delay: 0 },
    ];
    assert_eq!(
        frame_results(viewports, &wishes, false, Instant(100)),
        vec![
            EventResult::RepaintNext(WindowId(2)),
            EventResult::RepaintAt(WindowId(2), Instant(120)),
            EventResult::Wait,
        ]
    );
    let request = UserEvent::RequestRepaint { id: ViewportId(7), when: Instant(900), frame_nr: 1 };
    assert_eq!(shell.on_user_event(request), EventResult::RepaintAt(WindowId(2), Instant(900)));
}

#[test]
fn a_synchronous_child_is_never_redrawn_by_itself() {
    let mut shell = running();
    shell.end_paint(&frame(1, vec![sync_output(6, 0, "child")]), Instant(0));
    shell.set_window(ViewportId(6), WindowId(3));
    let mut schedule = RepaintSchedule::new();
    schedule.handle(EventResult::RepaintNext(WindowId(3)), Instant(10));
    let plan = schedule.idle_pass(Instant(10), shell.viewports());
    assert!(plan.redraw.is_empty());
    assert_eq!(plan.wait, WaitPolicy::Wait);
    assert_eq!(schedule.pending(WindowId(3)), None);
}

#[test]
fn a_request_to_repaint_is_scheduled_for_its_instant() {
    let mut shell = running();
    shell.end_paint(&frame(6, Vec::new()), Instant(0));
    let event = UserEvent::RequestRepaint { id: ViewportId::main(), when: Instant(400), frame_nr: 6 };
    assert_eq!(shell.on_user_event(event), EventResult::RepaintAt(WindowId(1), Instant(400)));
}

#[test]
fn a_stale_request_to_repaint_is_ignored() {
    let mut shell = running();
    shell.end_paint(&frame(6, Vec::new()), Instant(0));
    assert_eq!(shell.frame_nr(), 6);
    let event = UserEvent::RequestRepaint { id: ViewportId::main(), when: Instant(400), frame_nr: 5 };
    assert_eq!(shell.on_user_event(event), EventResult::Wait);
}

#[test]
fn a_request_to_repaint_a_viewport_without_a_window_is_ignored() {
    let mut shell = running();
    shell.end_paint(&frame(6, vec![output(5, 0, "five")]), Instant(0));
    let unknown = UserEvent::RequestRepaint { id: ViewportId(8), when: Instant(400), frame_nr: 6 };
    let windowless = UserEvent::RequestRepaint { id: ViewportId(5), when: Instant(400), frame_nr: 6 };
    assert_eq!(shell.on_user_event(unknown), EventResult::Wait);
    assert_eq!(shell.on_user_event(windowless), EventResult::Wait);
    let before_start = Shell::new();
    let first = UserEvent::RequestRepaint { id: ViewportId::main(), when: Instant(4), frame_nr: 0 };
    assert_eq!(before_start.on_user_event(first), EventResult::Wait);
}

#[test]
fn a_request_of_an_assistive_technology_repaints_its_window() {
    let shell = running();
    let event = UserEvent::AccessKitActionRequest { window_id: WindowId(1) };
    assert_eq!(shell.on_user_event(event), EventResult::RepaintNext(WindowId(1)));
    assert_eq!(Shell::new().on_user_event(event), EventResult::Wait);
}

#[test]
fn the_main_window_is_painted_by_a_frame() {
    let shell = running();
    match shell.begin_paint(WindowId(1)) {
        Paint::Frame { viewport, record } => {
            assert_eq!(viewport, ViewportId::main());
            assert_eq!(record.window, Some(WindowId(1)));
        }
        Paint::Done(_) => panic!("the main window should be painted"),
    }
}

#[test]
fn nothing_is_painted_for_an_unknown_window_or_before_the_start() {
    let shell = running();
    assert!(matches!(shell.begin_paint(WindowId(9)), Paint::Done(r) if r == vec![EventResult::Wait]));
    let idle = Shell::new();
    assert!(matches!(idle.begin_paint(WindowId(1)), Paint::Done(r) if r == vec![EventResult::Wait]));
}

#[test]
fn a_synchronous_child_waits_for_the_window_of_its_parent() {
    let mut shell = running();
    shell.end_paint(
        &frame(1, vec![output(5, 0, "parent"), sync_output(6, 5, "child")]),
        Instant(0),
    );
    assert!(shell.set_window(ViewportId(6), WindowId(3)));
    assert!(matches!(shell.begin_paint(WindowId(3)), Paint::Done(r) if r.is_empty()));

    assert!(shell.set_window(ViewportId(5), WindowId(2)));
    let results = match shell.begin_paint(WindowId(3)) {
        Paint::Done(results) => results,
        Paint::Frame { .. } => panic!("a synchronous child is painted by its parent"),
    };
    assert_eq!(results, vec![EventResult::RepaintNow(WindowId(2))]);

    let mut schedule = RepaintSchedule::new();
    let batch = schedule.handle_all(&results, Instant(10));
    assert_eq!(batch.paint_now, vec![WindowId(2)]);
    assert_eq!(schedule.pending(WindowId(3)), None);
    assert_eq!(schedule.pending(WindowId(2)), None);
    let plan = schedule.idle_pass(Instant(10), shell.viewports());
    assert!(plan.redraw.is_empty());
    assert_eq!(plan.wait, WaitPolicy::Wait);
}

#[test]
fn a_viewport_declared_in_one_frame_has_its_window_in_the_next() {
    let shared = Arc::new(egui::IconData { rgba: vec![1, 2, 3, 4], width: 1, height: 1 });
    let mut shell = Shell::new();
    shell.start(Viewports::new(titled("main").with_icon(shared.clone()), Some(WindowId(1))));
    shell.set_window(ViewportId::main(), WindowId(1));
    shell.set_surface(ViewportId::main(), 800, 600);
    shell.end_paint(&frame(1, Vec::new()), Instant(10));
    shell.end_paint(&frame(2, Vec::new()), Instant(20));
    assert!(shell.pending_windows().is_empty());

    let actions = shell.end_paint(&frame(3, vec![output(5, 0, "second")]), Instant(30));
    assert!(actions.reconciled.closed.is_empty());
    assert_eq!(shell.pending_windows(), vec![ViewportId(5)]);
    let kept = shell.viewports().unwrap().builder(ViewportId(5)).unwrap();
    assert_eq!(kept.title.as_deref(), Some("second"));
    assert!(Arc::ptr_eq(kept.icon.as_ref().unwrap(), &shared));

    // the idle pass: the embedder opens the window and reports it
    assert!(shell.set_window(ViewportId(5), WindowId(2)));
    assert!(shell.set_surface(ViewportId(5), 320, 240));
    assert!(shell.pending_windows().is_empty());

    assert!(matches!(
        shell.begin_paint(WindowId(2)),
        Paint::Frame { viewport: ViewportId(5), .. }
    ));
    shell.end_paint(&frame(4, vec![output(5, 0, "second")]), Instant(40));
    assert!(shell.has_window(WindowId(1)));
    assert!(shell.has_window(WindowId(2)));
    assert_eq!(shell.frame_nr(), 4);
}

#[test]
fn a_frame_before_the_start_is_nothing() {
    let mut shell = Shell::new();
    let actions = shell.end_paint(&frame(1, vec![output(5, 0, "five")]), Instant(0));
    assert_eq!(actions.results, vec![EventResult::Wait]);
    assert!(actions.reconciled.closed.is_empty());
    assert!(actions.reconciled.commands.is_empty());
    assert!(!shell.is_running());
}

#[test]
fn the_wishes_of_a_frame_become_results() {
    let mut shell = running();
    shell.end_paint(&frame(1, vec![output(5, 0, "five"), output(6, 0, "six")]), Instant(0));
    shell.set_window(ViewportId(5), WindowId(2));
    let output = FrameOutput {
        frame_nr: 2,
        repaint_after: vec![
            RepaintAfter { viewport: ViewportId::main(), delay: 0 },
            RepaintAfter { viewport: ViewportId(5), delay: 250 },
            RepaintAfter { viewport: ViewportId(6), delay: 0 },
            RepaintAfter { viewport: ViewportId(7), delay: 10 },
            RepaintAfter { viewport: ViewportId::main(), delay: u64::MAX },
        ],
        viewports: vec![output(5, 0, "five"), output(6, 0, "six")],
        should_close: false,
    };
    let actions = shell.end_paint(&output, Instant(1_000));
    assert_eq!(
        actions.results,
        vec![
            EventResult::RepaintNext(WindowId(1)),
            EventResult::RepaintAt(WindowId(2), Instant(1_250)),
            EventResult::Wait,
            EventResult::Wait,
            EventResult::Wait,
        ]
    );
}

#[test]
fn a_wish_of_a_viewport_that_the_frame_dropped_is_nothing() {
    let mut shell = running();
    shell.end_paint(&frame(1, vec![output(5, 0, "five")]), Instant(0));
    shell.set_window(ViewportId(5), WindowId(2));
    let output = FrameOutput {
        frame_nr: 2,
        repaint_after: vec![RepaintAfter { viewport: ViewportId(5), delay: 0 }],
        viewports: Vec::new(),
        should_close: false,
    };
    let actions = shell.end_paint(&output, Instant(1_000));
    assert_eq!(actions.results, vec![EventResult::Wait]);
    assert_eq!(
        actions.reconciled.closed,
        vec![ClosedWindow { viewport: ViewportId(5), window: WindowId(2) }]
    );
}

#[test]
fn a_frame_of_an_application_that_closes_asks_to_exit() {
    let mut shell = running();
    let output = FrameOutput {
        frame_nr: 2,
        repaint_after: vec![RepaintAfter { viewport: ViewportId::main(), delay: 0 }],
        viewports: Vec::new(),
        should_close: true,
    };
    assert_eq!(shell.end_paint(&output, Instant(5)).results, vec![EventResult::Exit]);
}

#[test]
fn frame_results_read_the_registry() {
    let viewports = Viewports::new(titled("main"), Some(WindowId(4)));
    let wishes = vec![
        RepaintAfter { viewport: ViewportId::main(), delay: 1 },
        RepaintAfter { viewport: ViewportId::main(), delay: 0 },
    ];
    assert_eq!(
        frame_results(&viewports, &wishes, false, Instant(u64::MAX - 1)),
        vec![EventResult::RepaintAt(WindowId(4), Instant(u64::MAX)), EventResult::RepaintNext(WindowId(4))]
    );
    assert_eq!(
        frame_results(&viewports, &wishes, false, Instant(u64::MAX)),
        vec![EventResult::Wait, EventResult::RepaintNext(WindowId(4))]
    );
    assert_eq!(frame_results(&viewports, &wishes, true, Instant(0)), vec![EventResult::Exit]);
    assert!(frame_results(&viewports, &Vec::new(), false, Instant(0)).is_empty());
}

#[test]
fn a_viewport_that_asks_for_no_delay_is_redrawn_at_the_next_idle_pass() {
    let mut shell = running();
    shell.end_paint(&frame(1, vec![output(5, 0, "five")]), Instant(0));
    shell.set_window(ViewportId(5), WindowId(2));
    let output = FrameOutput {
        frame_nr: 2,
        repaint_after: vec![
            RepaintAfter { viewport: ViewportId::main(), delay: 9_000 },
            RepaintAfter { viewport: ViewportId(5), delay: 0 },
        ],
        viewports: vec![output(5, 0, "five")],
        should_close: false,
    };
    let actions = shell.end_paint(&output, Instant(100));
    let mut schedule = RepaintSchedule::new();
    let batch = schedule.handle_all(&actions.results, Instant(100));
    assert!(!batch.exit);
    let plan = schedule.idle_pass(Instant(101), shell.viewports());
    assert_eq!(plan.redraw, vec![WindowId(2)]);
    assert_eq!(plan.wait, WaitPolicy::Poll);
    assert_eq!(schedule.pending(WindowId(1)), Some(Instant(9_100)));
}

#[test]
fn suspending_keeps_the_application() {
    let mut shell = running();
    shell.end_paint(&frame(3, vec![output(5, 0, "five")]), Instant(0));
    let closed = shell.on_suspended();
    assert_eq!(closed, vec![ClosedWindow { viewport: ViewportId::main(), window: WindowId(1) }]);
    assert!(shell.is_running());
    assert_eq!(shell.frame_nr(), 3);
    assert!(!shell.has_window(WindowId(1)));
    assert_eq!(shell.pending_windows(), vec![ViewportId::main(), ViewportId(5)]);
    match shell.on_resumed() {
        Resume::Reattach(ids) => assert_eq!(ids, vec![ViewportId::main(), ViewportId(5)]),
        Resume::Initialize => panic!("the application is there"),
    }
    assert_eq!(shell.resumed_result(), EventResult::Wait);
    assert!(shell.set_window(ViewportId::main(), WindowId(11)));
    assert_eq!(shell.resumed_result(), EventResult::RepaintNow(WindowId(11)));
    assert!(Shell::new().on_suspended().is_empty());
}

#[test]
fn a_surface_that_could_not_be_attached_is_pending_again() {
    let mut shell = running();
    shell.drop_surface(ViewportId::main());
    assert_eq!(shell.pending_windows(), vec![ViewportId::main()]);
    assert!(shell.set_surface(ViewportId::main(), 0, 0));
    let record = shell.viewports().unwrap().get(ViewportId::main()).unwrap();
    assert_eq!(record.surface, Some(SurfaceSize { width: 1, height: 1 }));
    let mut idle = Shell::new();
    idle.drop_surface(ViewportId::main());
    assert!(!idle.set_surface(ViewportId::main(), 1, 1));
    assert!(!idle.set_window(ViewportId::main(), WindowId(1)));
}

#[test]
fn a_new_synchronous_child_gets_its_window_at_once() {
    let mut shell = running();
    let child = sync_output(6, 0, "child");
    assert_eq!(shell.begin_sync_render(&child), SyncRender::Open(ViewportId(6)));
    assert!(shell.viewports().unwrap().contains(ViewportId(6)));
    assert_eq!(shell.sync_render_target(ViewportId(6)), SyncRender::Skip);
    assert!(shell.set_window(ViewportId(6), WindowId(2)));
    let target = SyncRender::Render { viewport: ViewportId(6), window: WindowId(2) };
    assert_eq!(shell.sync_render_target(ViewportId(6)), target);
    assert_eq!(shell.begin_sync_render(&child), target);
}

#[test]
fn a_synchronous_child_without_a_window_is_not_painted() {
    let mut shell = running();
    let child = sync_output(6, 0, "child");
    shell.begin_sync_render(&child);
    assert_eq!(shell.begin_sync_render(&child), SyncRender::Skip);
    assert_eq!(shell.sync_render_target(ViewportId(77)), SyncRender::Skip);
    let mut idle = Shell::new();
    assert_eq!(idle.begin_sync_render(&child), SyncRender::Skip);
    assert_eq!(idle.sync_render_target(ViewportId(6)), SyncRender::Skip);
}

#[test]
fn shutting_down_twice_is_shutting_down_once() {
    let mut shell = running();
    assert_eq!(shell.save_and_destroy(), Some(Shutdown { main_window: Some(WindowId(1)) }));
    assert!(!shell.is_running());
    assert_eq!(shell.save_and_destroy(), None);
    assert!(!shell.is_running());
    assert_eq!(shell.frame_nr(), 0);
    assert!(!shell.has_window(WindowId(1)));
}

#[test]
fn shutting_down_before_the_start_is_nothing() {
    let mut shell = Shell::new();
    assert_eq!(shell.save_and_destroy(), None);
}

#[test]
fn shutting_down_without_a_main_window() {
    let mut shell = Shell::new();
    shell.start(Viewports::new(titled("main"), None));
    assert_eq!(shell.save_and_destroy(), Some(Shutdown { main_window: None }));
}
