//! The repaint schedule: for each window the earliest instant at which it
//! should be redrawn, and from that how long the event loop may sleep.

use crate::event::EventResult;
use crate::id_map::IdMap;
use crate::ids::{Instant, WindowId};
use crate::viewports::{Viewports, ViewportsView};
use vstd::prelude::*;

verus! {

/// How the event loop waits for its next event.
#[derive(Clone, Copy, Debug, PartialEq, Eq, Structural)]
pub enum WaitPolicy {
    /// Do not wait: a redraw was just asked for.
    Poll,
    /// Sleep until an event arrives.
    Wait,
    /// Sleep until an event arrives or the instant is reached.
    WaitUntil(Instant),
}

/// What one result asks the event loop to do at once.
#[derive(Clone, Copy, Debug, PartialEq, Eq, Structural)]
pub enum Step {
    /// Nothing; go on with the next result.
    Continue,
    /// Paint the window now.
    PaintNow(WindowId),
    /// Shut down and handle no further result.
    Exit,
}

/// The pending repaints after one result was handled at the instant `now`.
///
/// A repaint in the handler takes the place of a pending one; a repaint at
/// the next idle pass is pending from now; of two instants for one window
/// the earlier stays.
pub open spec fn after_result(
    pending: Map<WindowId, Instant>,
    result: EventResult,
    now: Instant,
) -> Map<WindowId, Instant> {
    match result {
        EventResult::Wait => pending,
        EventResult::RepaintNow(window) => pending.remove(window),
        EventResult::RepaintNext(window) => pending.insert(window, now),
        EventResult::RepaintAt(window, at) => pending.insert(
            window,
            if pending.contains_key(window) {
                pending[window].earlier(at)
            } else {
                at
            },
        ),
        EventResult::Exit => pending,
    }
}

/// What one result asks the event loop to do at once.
pub open spec fn step_of(result: EventResult) -> Step {
    match result {
        EventResult::RepaintNow(window) => Step::PaintNow(window),
        EventResult::Exit => Step::Exit,
        _ => Step::Continue,
    }
}

/// The pending repaints after all of `results` were handled in order.
pub open spec fn after_results(
    pending: Map<WindowId, Instant>,
    results: Seq<EventResult>,
    now: Instant,
) -> Map<WindowId, Instant>
    decreases results.len(),
{
    if results.len() == 0 {
        pending
    } else {
        after_result(after_results(pending, results.drop_last(), now), results.last(), now)
    }
}

/// The windows that `results` ask to paint in the handler, in order.
pub open spec fn paints(results: Seq<EventResult>) -> Seq<WindowId>
    decreases results.len(),
{
    if results.len() == 0 {
        Seq::empty()
    } else {
        match results.last() {
            EventResult::RepaintNow(window) => paints(results.drop_last()).push(window),
            _ => paints(results.drop_last()),
        }
    }
}

/// Handling `results` in order stops after `n` of them: at the first
/// `Exit`, or at the end.
pub open spec fn stops_at(results: Seq<EventResult>, n: int) -> bool {
    &&& 0 <= n <= results.len()
    &&& forall|i: int| 0 <= i < n ==> results[i] != EventResult::Exit
    &&& n < results.len() ==> results[n] == EventResult::Exit
}

/// The repaint of `window` is pending and its instant has come.
pub open spec fn due(pending: Map<WindowId, Instant>, window: WindowId, now: Instant) -> bool {
    pending.contains_key(window) && pending[window].0 <= now.0
}

/// An idle pass at `now` asks for a redraw of `window`: its repaint is
/// due, and the window is the open window of a viewport that has frames
/// of its own. A synchronous child is painted with its parent and never
/// redrawn by itself.
pub open spec fn redraws(
    pending: Map<WindowId, Instant>,
    now: Instant,
    viewports: Option<ViewportsView>,
    window: WindowId,
) -> bool {
    due(pending, window, now) && viewports is Some && viewports->0.paints_itself(window)
}

/// The registry as a mathematical value, if there is one.
pub open spec fn view_of(viewports: Option<&Viewports>) -> Option<ViewportsView> {
    match viewports {
        Some(v) => Some(v@),
        None => None,
    }
}

/// The pending repaints after an idle pass at `now`: those that are not due.
pub open spec fn after_idle(pending: Map<WindowId, Instant>, now: Instant) -> Map<WindowId, Instant> {
    Map::new(|w: WindowId| pending.contains_key(w) && !due(pending, w, now), |w: WindowId| pending[w])
}

/// `at` is the earliest pending instant.
pub open spec fn is_earliest(pending: Map<WindowId, Instant>, at: Instant) -> bool {
    &&& exists|w: WindowId| #[trigger] pending.contains_key(w) && pending[w] == at
    &&& forall|w: WindowId| #[trigger] pending.contains_key(w) ==> at.0 <= pending[w].0
}

/// How the loop waits after an idle pass that left `left` pending: not at
/// all where a redraw was asked for, else until the earliest pending
/// instant, else without end.
pub open spec fn waits(asked: bool, left: Map<WindowId, Instant>, wait: WaitPolicy) -> bool {
    match wait {
        WaitPolicy::Poll => asked,
        WaitPolicy::Wait => !asked && forall|w: WindowId| !left.contains_key(w),
        WaitPolicy::WaitUntil(at) => !asked && is_earliest(left, at),
    }
}

/// What handling a batch of results asks of the event loop.
pub struct Batch {
    /// The windows to paint now, in order.
    pub paint_now: Vec<WindowId>,
    /// Whether to shut down after that.
    pub exit: bool,
    /// How many results were handled: all of them, or those before the
    /// first `Exit`.
    pub handled: usize,
}

/// What an idle pass asks of the event loop.
pub struct IdlePlan {
    /// The windows to ask the platform to redraw.
    pub redraw: Vec<WindowId>,
    /// How to wait for the next event.
    pub wait: WaitPolicy,
}

/// The pending repaints of the open windows.
pub struct RepaintSchedule {
    times: IdMap<WindowId, Instant>,
}

impl View for RepaintSchedule {
    type V = Map<WindowId, Instant>;

    closed spec fn view(&self) -> Map<WindowId, Instant> {
        self.times@
    }
}

impl RepaintSchedule {
    pub closed spec fn wf(&self) -> bool {
        self.times.wf()
    }

    /// A schedule with nothing pending.
    pub fn new() -> (schedule: RepaintSchedule)
        ensures
            schedule.wf(),
            schedule@ == Map::<WindowId, Instant>::empty(),
    {
        RepaintSchedule { times: IdMap::new() }
    }

    /// The instant at which a repaint of `window` is pending.
    pub fn pending(&self, window: WindowId) -> (at: Option<Instant>)
        ensures
            at == if self@.contains_key(window) {
                Some(self@[window])
            } else {
                None
            },
    {
        match self.times.get(window) {
            Some(at) => Some(*at),
            None => None,
        }
    }

    /// Forgets the pending repaint of `window`: the platform has asked for
    /// its redraw, or the window is being painted.
    pub fn remove(&mut self, window: WindowId)
        requires
            old(self).wf(),
        ensures
            final(self).wf(),
            final(self)@ == old(self)@.remove(window),
    {
        self.times.remove(window);
    }

    /// Handles one result at the instant `now`.
    pub fn handle(&mut self, result: EventResult, now: Instant) -> (step: Step)
        requires
            old(self).wf(),
        ensures
            final(self).wf(),
            final(self)@ == after_result(old(self)@, result, now),
            step == step_of(result),
    {
        match result {
            EventResult::Wait => Step::Continue,
            EventResult::RepaintNow(window) => {
                self.times.remove(window);
                Step::PaintNow(window)
            },
            EventResult::RepaintNext(window) => {
                self.times.insert(window, now);
                Step::Continue
            },
            EventResult::RepaintAt(window, at) => {
                let earliest = match self.times.get(window) {
                    Some(last) => last.earlier(at),
                    None => at,
                };
                self.times.insert(window, earliest);
                Step::Continue
            },
            EventResult::Exit => Step::Exit,
        }
    }

    /// Handles the results of one event in order, at the instant `now`, up
    /// to the first `Exit`.
    pub fn handle_all(&mut self, results: &Vec<EventResult>, now: Instant) -> (batch: Batch)
        requires
            old(self).wf(),
        ensures
            final(self).wf(),
            stops_at(results@, batch.handled as int),
            batch.exit == (batch.handled < results@.len()),
            final(self)@ == after_results(old(self)@, results@.take(batch.handled as int), now),
            batch.paint_now@ == paints(results@.take(batch.handled as int)),
    {
        let mut paint_now: Vec<WindowId> = Vec::new();
        let mut exit = false;
        let n: usize = results.len();
        let mut i: usize = 0;
        while i < n && !exit
            invariant
                i <= n,
                n == results@.len(),
                self.wf(),
                forall|j: int| 0 <= j < i ==> results@[j] != EventResult::Exit,
                exit ==> i < n && results@[i as int] == EventResult::Exit,
                self@ == after_results(old(self)@, results@.take(i as int), now),
                paint_now@ == paints(results@.take(i as int)),
            decreases n - i + if exit { 0int } else { 1int },
        {
            let result = results[i];
            proof {
                assert(results@.take(i + 1).drop_last() =~= results@.take(i as int));
            }
            match self.handle(result, now) {
                Step::Continue => {
                    i += 1;
                },
                Step::PaintNow(window) => {
                    paint_now.push(window);
                    i += 1;
                },
                Step::Exit => {
                    exit = true;
                },
            }
        }
        Batch { paint_now, exit, handled: i }
    }

    /// The idle pass at the instant `now`: every repaint that is due leaves
    /// the schedule, and for those whose window is open and painted by
    /// itself a redraw is asked for. Then the loop polls if a redraw was
    /// asked for, else sleeps until the earliest instant that is still
    /// pending, else until an event arrives.
    pub fn idle_pass(&mut self, now: Instant, viewports: Option<&Viewports>) -> (plan: IdlePlan)
        requires
            old(self).wf(),
            viewports matches Some(v) ==> v.wf(),
        ensures
            final(self).wf(),
            final(self)@ == after_idle(old(self)@, now),
            plan.redraw@.no_duplicates(),
            forall|w: WindowId| #[trigger]
                plan.redraw@.contains(w) <==> redraws(old(self)@, now, view_of(viewports), w),
            waits(plan.redraw@.len() > 0, final(self)@, plan.wait),
    {
        let keys = self.times.key_list();
        let n: usize = keys.len();
        let ghost pre = old(self)@;
        let mut redraw: Vec<WindowId> = Vec::new();
        let mut earliest: Option<Instant> = None;
        let mut i: usize = 0;
        while i < n
            invariant
                i <= n,
                n == keys@.len(),
                keys@ == old(self).times.keys(),
                old(self).wf(),
                pre == old(self)@,
                viewports matches Some(v) ==> v.wf(),
                self.wf(),
                forall|w: WindowId| #[trigger]
                    self@.contains_key(w) <==> pre.contains_key(w) && !(keys@.take(i as int).contains(
                        w,
                    ) && due(pre, w, now)),
                forall|w: WindowId| #[trigger] self@.contains_key(w) ==> self@[w] == pre[w],
                redraw@.no_duplicates(),
                forall|w: WindowId| #[trigger]
                    redraw@.contains(w) <==> keys@.take(i as int).contains(w) && redraws(
                        pre,
                        now,
                        view_of(viewports),
                        w,
                    ),
                match earliest {
                    Some(at) => {
                        &&& exists|w: WindowId| #[trigger]
                            keys@.take(i as int).contains(w) && !due(pre, w, now) && pre[w] == at
                        &&& forall|w: WindowId| #[trigger]
                            keys@.take(i as int).contains(w) && !due(pre, w, now) ==> at.0
                                <= pre[w].0
                    },
                    None => forall|w: WindowId| #[trigger]
                        keys@.take(i as int).contains(w) ==> due(pre, w, now),
                },
            decreases n - i,
        {
            let window = keys[i];
            let ghost done = keys@.take(i as int);
            let ghost redraw_before = redraw@;
            proof {
                assert(keys@.take(i + 1) =~= done.push(window));
                crate::viewports::lemma_push_contains(done, window);
                assert(keys@.contains(window));
            }
            assert(self@.contains_key(window));
            let at = *self.times.get(window).unwrap();
            if at.0 <= now.0 {
                self.times.remove(window);
                let open = match viewports {
                    Some(v) => v.paints_itself(window),
                    None => false,
                };
                if open {
                    proof {
                        crate::viewports::lemma_push_contains(redraw_before, window);
                    }
                    redraw.push(window);
                }
            } else {
                earliest = match earliest {
                    Some(last) => Some(last.earlier(at)),
                    None => Some(at),
                };
            }
            proof {
                let next = keys@.take(i + 1);
                assert forall|w: WindowId| next.contains(w) <==> done.contains(w) || w == window by {}
                assert forall|w: WindowId| #[trigger]
                    redraw@.contains(w) <==> next.contains(w) && redraws(
                        pre,
                        now,
                        view_of(viewports),
                        w,
                    ) by {
                    assert(redraw_before.contains(w) <==> done.contains(w) && redraws(
                        pre,
                        now,
                        view_of(viewports),
                        w,
                    ));
                }
                match earliest {
                    Some(e) => {
                        let witness = if at.0 > now.0 && e == at {
                            window
                        } else {
                            choose|w: WindowId| #[trigger]
                                done.contains(w) && !due(pre, w, now) && pre[w] == e
                        };
                    },
                    None => {
                    },
                }
            }
            i += 1;
        }
        proof {
            assert(keys@.take(n as int) =~= keys@);
            assert forall|w: WindowId| pre.contains_key(w) implies keys@.contains(w) by {}
            assert(self@ =~= after_idle(pre, now));
        }
        let wait = if redraw.len() > 0 {
            WaitPolicy::Poll
        } else {
            match earliest {
                Some(at) => {
                    proof {
                        let w0 = choose|w: WindowId| #[trigger]
                            keys@.contains(w) && !due(pre, w, now) && pre[w] == at;
                        assert(self@.contains_key(w0) && self@[w0] == at);
                    }
                    WaitPolicy::WaitUntil(at)
                },
                None => WaitPolicy::Wait,
            }
        };
        IdlePlan { redraw, wait }
    }
}

/// Two requests to repaint one window, at `first` and at `second`, leave
/// the same pending instant in whichever order they arrive: the earliest
/// of the two and of what was pending before.
pub proof fn lemma_repaint_at_commutes(
    pending: Map<WindowId, Instant>,
    window: WindowId,
    first: Instant,
    second: Instant,
    now: Instant,
)
    ensures
        after_result(
            after_result(pending, EventResult::RepaintAt(window, first), now),
            EventResult::RepaintAt(window, second),
            now,
        ) == after_result(
            after_result(pending, EventResult::RepaintAt(window, second), now),
            EventResult::RepaintAt(window, first),
            now,
        ),
        after_result(
            after_result(pending, EventResult::RepaintAt(window, first), now),
            EventResult::RepaintAt(window, second),
            now,
        )[window] == if pending.contains_key(window) {
            pending[window].earlier(first).earlier(second)
        } else {
            first.earlier(second)
        },
        !pending.contains_key(window) ==> after_result(
            after_result(pending, EventResult::RepaintAt(window, first), now),
            EventResult::RepaintAt(window, second),
            now,
        )[window].0 == if first.0 <= second.0 {
            first.0
        } else {
            second.0
        },
{
    let a = after_result(
        after_result(pending, EventResult::RepaintAt(window, first), now),
        EventResult::RepaintAt(window, second),
        now,
    );
    let b = after_result(
        after_result(pending, EventResult::RepaintAt(window, second), now),
        EventResult::RepaintAt(window, first),
        now,
    );
}

/// A repaint asked for the next idle pass is asked of the platform at the
/// next idle pass, whatever else is pending and however much later that
/// pass is, as long as the window is open and painted by itself; and the
/// repaint is pending no longer after that pass.
pub proof fn lemma_repaint_next_fires(
    pending: Map<WindowId, Instant>,
    window: WindowId,
    now: Instant,
    later: Instant,
    viewports: ViewportsView,
)
    requires
        now.0 <= later.0,
        viewports.paints_itself(window),
    ensures
        redraws(
            after_result(pending, EventResult::RepaintNext(window), now),
            later,
            Some(viewports),
            window,
        ),
        !after_idle(
            after_result(pending, EventResult::RepaintNext(window), now),
            later,
        ).contains_key(window),
{
}

} // verus!
