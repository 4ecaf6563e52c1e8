//! The registry of viewports: which logical windows exist, which of them
//! have an open OS window and a graphics surface, and what each was last
//! asked to look like.

use crate::builder::{
    builder_icon, clone_builder, icon_of, icon_or, patch_builder, patch_recreates,
    set_builder_icon,
};
use crate::id_map::IdMap;
use crate::ids::{ViewportId, ViewportIdPair, WindowId};
use egui::{IconData, ViewportBuilder, ViewportCommand};
use std::sync::Arc;
use vstd::prelude::*;

verus! {

/// The embedder's handle for the callback that paints a viewport inline.
#[derive(Clone, Copy, Debug, PartialEq, Eq, Structural, Hash)]
pub struct RenderId(pub u64);

/// The size of a graphics surface in physical pixels.
#[derive(Clone, Copy, Debug, PartialEq, Eq, Structural, Hash)]
pub struct SurfaceSize {
    pub width: u32,
    pub height: u32,
}

impl SurfaceSize {
    pub open spec fn spec_clamped(width: u32, height: u32) -> SurfaceSize {
        SurfaceSize {
            width: if width == 0 {
                1
            } else {
                width
            },
            height: if height == 0 {
                1
            } else {
                height
            },
        }
    }

    /// The size of the surface made for a window of the given inner size:
    /// at least one pixel each way.
    #[verifier::when_used_as_spec(spec_clamped)]
    pub fn clamped(width: u32, height: u32) -> (size: SurfaceSize)
        ensures
            size == SurfaceSize::spec_clamped(width, height),
    {
        SurfaceSize {
            width: if width == 0 {
                1
            } else {
                width
            },
            height: if height == 0 {
                1
            } else {
                height
            },
        }
    }
}

/// What the registry knows of one viewport.
#[derive(Clone, Copy, Debug, PartialEq, Eq, Structural)]
pub struct Window {
    /// The open OS window, if there is one.
    pub window: Option<WindowId>,
    /// The graphics surface attached to that window, by its size.
    pub surface: Option<SurfaceSize>,
    /// Whether the adapter that collects this window's input exists.
    pub input_state: bool,
    /// The callback that paints this viewport inline, as a step of its
    /// parent's frame. Set for synchronous children only.
    pub render: Option<RenderId>,
    /// The viewport and its parent.
    pub pair: ViewportIdPair,
}

impl Window {
    pub open spec fn spec_fresh(pair: ViewportIdPair, render: Option<RenderId>) -> Window {
        Window { window: None, surface: None, input_state: false, render, pair }
    }

    /// The record of a viewport that was declared and has no window yet.
    #[verifier::when_used_as_spec(spec_fresh)]
    pub fn fresh(pair: ViewportIdPair, render: Option<RenderId>) -> (w: Window)
        ensures
            w == Window::spec_fresh(pair, render),
    {
        Window { window: None, surface: None, input_state: false, render, pair }
    }

    /// A synchronous child is painted by its parent and never scheduled by
    /// itself. The main viewport is never one.
    pub open spec fn spec_is_sync_child(&self) -> bool {
        self.render is Some && !self.pair.this.is_main()
    }

    #[verifier::when_used_as_spec(spec_is_sync_child)]
    pub fn is_sync_child(&self) -> (r: bool)
        ensures
            r == self.spec_is_sync_child(),
    {
        self.render.is_some() && !self.pair.this.is_main()
    }
}

/// One viewport that the UI asked for in a frame.
pub struct ViewportOutput {
    /// What the window should look like.
    pub builder: ViewportBuilder,
    /// The viewport and its parent.
    pub pair: ViewportIdPair,
    /// The callback that paints the viewport inline, for a synchronous child.
    pub render: Option<RenderId>,
}

/// An open window that the embedder has to close, with its surface.
#[derive(Clone, Copy, Debug, PartialEq, Eq, Structural)]
pub struct ClosedWindow {
    pub viewport: ViewportId,
    pub window: WindowId,
}

/// Commands that the embedder has to apply to an open window.
pub struct WindowCommands {
    pub viewport: ViewportId,
    pub window: WindowId,
    pub commands: Vec<ViewportCommand>,
}

/// What declaring one viewport asks of the embedder.
pub enum Declared {
    /// The viewport has no open window: nothing to do now.
    Nothing,
    /// The open window stays and takes these commands.
    Patch(WindowCommands),
    /// The open window cannot become what is asked for: close it. A new one
    /// is opened at the next idle pass.
    Recreate(ClosedWindow),
}

/// The record of `output`'s viewport after it was declared.
pub open spec fn declared_record(pre: ViewportsView, output: ViewportOutput) -> Window {
    let id = output.pair.this;
    if pre.records.contains_key(id) {
        let last = pre.records[id];
        if patch_recreates(pre.builders[id], output.builder) {
            Window {
                window: None,
                surface: None,
                input_state: last.input_state,
                render: output.render,
                pair: output.pair,
            }
        } else {
            Window { render: output.render, pair: output.pair, ..last }
        }
    } else {
        Window::fresh(output.pair, output.render)
    }
}

/// The icon of the builder kept for `output`'s viewport after it was
/// declared: its own, else the one it had, else for a new viewport its
/// parent's.
pub open spec fn declared_icon(pre: ViewportsView, output: ViewportOutput) -> Option<Arc<IconData>> {
    let id = output.pair.this;
    let parent = output.pair.parent;
    icon_or(
        icon_of(output.builder),
        if pre.records.contains_key(id) {
            icon_of(pre.builders[id])
        } else if pre.builders.contains_key(parent) {
            icon_of(pre.builders[parent])
        } else {
            None
        },
    )
}

/// The registry `post` is `pre` after `output` was declared.
pub open spec fn declared_step(
    pre: ViewportsView,
    output: ViewportOutput,
    post: ViewportsView,
) -> bool {
    let id = output.pair.this;
    &&& post.records == pre.records.insert(id, declared_record(pre, output))
    &&& post.builders.dom() == pre.builders.dom().insert(id)
    &&& forall|other: ViewportId|
        other != id && pre.builders.contains_key(other) ==> #[trigger] post.builders[other]
            == pre.builders[other]
    &&& !patch_recreates(post.builders[id], output.builder)
    &&& icon_of(post.builders[id]) == declared_icon(pre, output)
}

/// What declaring `output` asks of the embedder, but for the commands.
pub open spec fn declared_change(pre: ViewportsView, output: ViewportOutput, change: Declared) -> bool {
    let id = output.pair.this;
    if pre.records.contains_key(id) && pre.records[id].window is Some {
        let window = pre.records[id].window->0;
        if patch_recreates(pre.builders[id], output.builder) {
            change == Declared::Recreate(ClosedWindow { viewport: id, window })
        } else {
            change matches Declared::Patch(c) && c.viewport == id && c.window == window
        }
    } else {
        change is Nothing
    }
}

/// What a reconciliation asks of the embedder.
pub struct Reconciled {
    /// Windows to close, with their surfaces.
    pub closed: Vec<ClosedWindow>,
    /// Commands for windows that stay open.
    pub commands: Vec<WindowCommands>,
}

/// Some entry of `declared` is for `id`.
pub open spec fn declares(declared: Seq<ViewportOutput>, id: ViewportId) -> bool {
    exists|i: int| 0 <= i < declared.len() && #[trigger] declared[i].pair.this == id
}

/// Entry `i` of `declared` is the first one for its viewport. Where a list
/// names a viewport twice, the first entry counts.
pub open spec fn is_first(declared: Seq<ViewportOutput>, i: int) -> bool {
    &&& 0 <= i < declared.len()
    &&& forall|j: int| 0 <= j < i ==> #[trigger] declared[j].pair.this != declared[i].pair.this
}

/// Some entry of `declared` before entry `i` is for `id`.
pub open spec fn declares_before(declared: Seq<ViewportOutput>, i: int, id: ViewportId) -> bool {
    exists|j: int| 0 <= j < i && j < declared.len() && #[trigger] declared[j].pair.this == id
}

/// The icon that the new viewport of entry `i` finds with its parent.
///
/// The builder of a parent that had a record before is read after every
/// declared viewport with a record was declared; that of a parent that is
/// new itself is there only if the parent was declared earlier in the list.
pub open spec fn parent_icon(
    pre: ViewportsView,
    post: ViewportsView,
    declared: Seq<ViewportOutput>,
    i: int,
) -> Option<Arc<IconData>> {
    let parent = declared[i].pair.parent;
    if pre.records.contains_key(parent) {
        icon_of(
            if declares(declared, parent) {
                post.builders[parent]
            } else {
                pre.builders[parent]
            },
        )
    } else if declares_before(declared, i, parent) {
        icon_of(post.builders[parent])
    } else {
        None
    }
}

/// The same while the new viewports are being declared: `mid` is the
/// registry before the first of them, `now` the registry so far.
spec fn parent_icon_so_far(
    pre: ViewportsView,
    mid: ViewportsView,
    now: ViewportsView,
    declared: Seq<ViewportOutput>,
    i: int,
) -> Option<Arc<IconData>> {
    let parent = declared[i].pair.parent;
    if pre.records.contains_key(parent) {
        icon_of(mid.builders[parent])
    } else if declares_before(declared, i, parent) {
        icon_of(now.builders[parent])
    } else {
        None
    }
}

/// The registry `post` is `pre` reconciled with the viewports `declared`
/// in a frame.
pub open spec fn reconciled(
    pre: ViewportsView,
    declared: Seq<ViewportOutput>,
    post: ViewportsView,
) -> bool {
    // the main viewport and the declared ones have records, and no others
    &&& forall|id: ViewportId| #[trigger]
        post.records.contains_key(id) <==> id.is_main() || declares(declared, id)
    // a main viewport that was not declared is as it was
    &&& !declares(declared, ViewportId::main()) ==> {
        &&& post.records[ViewportId::main()] == pre.records[ViewportId::main()]
        &&& post.builders[ViewportId::main()] == pre.builders[ViewportId::main()]
    }
    // each declared viewport has the record that declaring it gives, and a
    // builder that is up to date with the declared one
    &&& forall|i: int| #[trigger]
        is_first(declared, i) ==> {
            let id = declared[i].pair.this;
            &&& post.records[id] == declared_record(pre, declared[i])
            &&& !patch_recreates(post.builders[id], declared[i].builder)
            &&& icon_of(post.builders[id]) == icon_or(
                icon_of(declared[i].builder),
                if pre.records.contains_key(id) {
                    icon_of(pre.builders[id])
                } else {
                    parent_icon(pre, post, declared, i)
                },
            )
        }
}

/// What the reconciliation that took `pre` to `post` asks of the embedder,
/// but for what the commands are.
///
/// The windows to close are those that were open and no longer belong to
/// their viewport, each once. The windows to send commands to are the open
/// windows of declared viewports that stay open, each once.
pub open spec fn asked_of(
    pre: ViewportsView,
    declared: Seq<ViewportOutput>,
    post: ViewportsView,
    asked: Reconciled,
) -> bool {
    &&& asked.closed@.no_duplicates()
    &&& forall|c: ClosedWindow| #[trigger]
        asked.closed@.contains(c) <==> pre.owns(c.viewport, c.window) && !post.owns(
            c.viewport,
            c.window,
        )
    &&& forall|a: int, b: int|
        0 <= a < b < asked.commands@.len() ==> (#[trigger] asked.commands@[a]).viewport != (
        #[trigger] asked.commands@[b]).viewport
    &&& forall|k: int|
        0 <= k < asked.commands@.len() ==> {
            let c = #[trigger] asked.commands@[k];
            declares(declared, c.viewport) && pre.owns(c.viewport, c.window) && post.owns(
                c.viewport,
                c.window,
            )
        }
    &&& forall|id: ViewportId, w: WindowId|
        declares(declared, id) && pre.owns(id, w) && #[trigger] post.owns(id, w) ==> exists|
            k: int,
        |
            0 <= k < asked.commands@.len() && (#[trigger] asked.commands@[k]).viewport == id
}

/// Whether `ids` holds `id`.
pub fn contains_id(ids: &Vec<ViewportId>, id: ViewportId) -> (r: bool)
    ensures
        r == ids@.contains(id),
{
    let mut i: usize = 0;
    while i < ids.len()
        invariant
            i <= ids@.len(),
            forall|j: int| 0 <= j < i ==> ids@[j] != id,
        decreases ids@.len() - i,
    {
        if ids[i].0 == id.0 {
            return true;
        }
        i += 1;
    }
    false
}

/// The registry as a mathematical value.
pub struct ViewportsView {
    pub records: Map<ViewportId, Window>,
    pub builders: Map<ViewportId, ViewportBuilder>,
}

impl ViewportsView {
    /// `id` owns the open window `window`.
    pub open spec fn owns(self, id: ViewportId, window: WindowId) -> bool {
        self.records.contains_key(id) && self.records[id].window == Some(window)
    }

    /// The viewport that owns the open window `window`.
    pub open spec fn viewport_of(self, window: WindowId) -> Option<ViewportId> {
        if exists|id: ViewportId| self.owns(id, window) {
            Some(choose|id: ViewportId| self.owns(id, window))
        } else {
            None
        }
    }

    /// `window` is the open window of some viewport.
    pub open spec fn has_window(self, window: WindowId) -> bool {
        self.viewport_of(window) is Some
    }

    /// `window` is the open window of a viewport that has frames of its
    /// own: one that is no synchronous child.
    pub open spec fn paints_itself(self, window: WindowId) -> bool {
        self.viewport_of(window) matches Some(id) && !self.records[id].is_sync_child()
    }

    /// The viewport in whose frame `id` is painted: `id` itself where it
    /// has frames of its own, else what its parent is painted in, as far as
    /// `steps` steps lead.
    pub open spec fn painter(self, id: ViewportId, steps: nat) -> Option<ViewportId>
        decreases steps,
    {
        if !self.records.contains_key(id) {
            None
        } else if !self.records[id].is_sync_child() {
            Some(id)
        } else if steps == 0 {
            None
        } else {
            self.painter(self.records[id].pair.parent, (steps - 1) as nat)
        }
    }

    /// The window that is redrawn to have `id` painted: the open window of
    /// the viewport in whose frame `id` is painted. No chain of parents is
    /// followed further than there are records.
    pub open spec fn repaint_window(self, id: ViewportId) -> Option<WindowId> {
        match self.painter(id, self.records.dom().len()) {
            Some(painter) => self.records[painter].window,
            None => None,
        }
    }

    /// The data model's invariants.
    pub open spec fn valid(self) -> bool {
        // the main viewport has a record
        &&& self.records.contains_key(ViewportId::main())
        // each record has a last-seen builder, and nothing else has
        &&& self.records.dom() == self.builders.dom()
        // a record is filed under its own identifier
        &&& forall|id: ViewportId| #[trigger]
            self.records.contains_key(id) ==> self.records[id].pair.this == id
        // a surface lives no longer than its window
        &&& forall|id: ViewportId| #[trigger]
            self.records.contains_key(id) ==> (self.records[id].surface is Some
                ==> self.records[id].window is Some)
        // an open window belongs to one viewport
        &&& forall|a: ViewportId, b: ViewportId, w: WindowId|
            #![trigger self.owns(a, w), self.owns(b, w)]
            self.owns(a, w) && self.owns(b, w) ==> a == b
    }
}

/// Where a valid registry has an owner for a window, it is the only one.
pub proof fn lemma_viewport_of(view: ViewportsView, id: ViewportId, window: WindowId)
    requires
        view.valid(),
    ensures
        view.owns(id, window) <==> view.viewport_of(window) == Some(id),
{
}

/// A viewport is declared among the first `i + 1` entries where it is
/// declared among the first `i`, or by entry `i`.
pub proof fn lemma_declares_take(declared: Seq<ViewportOutput>, i: int)
    requires
        0 <= i < declared.len(),
    ensures
        forall|id: ViewportId|
            declares(declared.take(i + 1), id) <==> declares(declared.take(i), id)
                || declared[i].pair.this == id,
{
    let longer = declared.take(i + 1);
    let shorter = declared.take(i);
    assert forall|id: ViewportId|
        declares(longer, id) <==> declares(shorter, id) || declared[i].pair.this == id by {
        if declares(longer, id) {
            let j = choose|j: int| 0 <= j < longer.len() && #[trigger] longer[j].pair.this == id;
        }
        if declared[i].pair.this == id {
            assert(longer[i].pair.this == id);
        }
    }
}

/// A viewport is declared among the first `i` entries exactly where an
/// entry before entry `i` is for it.
pub proof fn lemma_declares_before(declared: Seq<ViewportOutput>, i: int)
    requires
        0 <= i <= declared.len(),
    ensures
        forall|id: ViewportId|
            declares(declared.take(i), id) <==> declares_before(declared, i, id),
{
    let first = declared.take(i);
    assert forall|id: ViewportId| declares(first, id) <==> declares_before(declared, i, id) by {
        if declares_before(declared, i, id) {
            let j = choose|j: int|
                0 <= j < i && j < declared.len() && #[trigger] declared[j].pair.this == id;
            assert(first[j].pair.this == id);
        }
    }
}

/// What a list holds after a push.
pub proof fn lemma_push_contains<A>(s: Seq<A>, a: A)
    ensures
        forall|x: A| s.push(a).contains(x) <==> s.contains(x) || x == a,
        s.no_duplicates() && !s.contains(a) ==> s.push(a).no_duplicates(),
{
    let t = s.push(a);
    assert forall|x: A| t.contains(x) <==> s.contains(x) || x == a by {
        if s.contains(x) {
            let j = s.index_of(x);
            assert(t[j] == x);
        }
        if x == a {
            assert(t[s.len() as int] == a);
        }
    }
}

/// A viewport that is declared with the same builder in two frames in a
/// row keeps, in the second, the window and the surface that it had after
/// the first: a builder that did not change asks for no new window.
pub proof fn lemma_unchanged_builder_keeps_window(
    start: ViewportsView,
    first: Seq<ViewportOutput>,
    between: ViewportsView,
    second: Seq<ViewportOutput>,
    end: ViewportsView,
    i: int,
    j: int,
)
    requires
        reconciled(start, first, between),
        reconciled(between, second, end),
        is_first(first, i),
        is_first(second, j),
        first[i].pair.this == second[j].pair.this,
        first[i].builder == second[j].builder,
    ensures
        end.records[second[j].pair.this].window == between.records[second[j].pair.this].window,
        end.records[second[j].pair.this].surface == between.records[second[j].pair.this].surface,
        forall|w: WindowId|
            between.owns(second[j].pair.this, w) ==> #[trigger] end.owns(second[j].pair.this, w),
{
}

/// In a valid registry the main viewport has a record, and at most one
/// open window; an event for that window finds the main viewport and no
/// other.
pub proof fn lemma_main_viewport(view: ViewportsView, first: WindowId, second: WindowId)
    requires
        view.valid(),
    ensures
        view.records.contains_key(ViewportId::main()),
        view.owns(ViewportId::main(), first) && view.owns(ViewportId::main(), second) ==> first
            == second,
        view.owns(ViewportId::main(), first) ==> view.viewport_of(first) == Some(
            ViewportId::main(),
        ),
{
    lemma_viewport_of(view, ViewportId::main(), first);
}

/// The viewport in whose frame a viewport is painted has a record and is
/// no synchronous child.
pub proof fn lemma_painter(view: ViewportsView, id: ViewportId, steps: nat)
    ensures
        view.painter(id, steps) matches Some(p) ==> view.records.contains_key(p)
            && !view.records[p].is_sync_child(),
        !view.records.contains_key(id) ==> view.painter(id, steps) is None,
        view.records.contains_key(id) && !view.records[id].is_sync_child() ==> view.painter(
            id,
            steps,
        ) == Some(id),
    decreases steps,
{
    if view.records.contains_key(id) && view.records[id].is_sync_child() && steps > 0 {
        lemma_painter(view, view.records[id].pair.parent, (steps - 1) as nat);
    }
}

/// The window that is redrawn to have a viewport painted is the open
/// window of a viewport that has frames of its own: never that of a
/// synchronous child. For a viewport with frames of its own it is the
/// viewport's own window.
pub proof fn lemma_repaint_window(view: ViewportsView, id: ViewportId)
    requires
        view.valid(),
    ensures
        view.repaint_window(id) matches Some(w) ==> view.paints_itself(w),
        view.records.contains_key(id) && !view.records[id].is_sync_child() ==> view.repaint_window(
            id,
        ) == view.records[id].window,
        !view.records.contains_key(id) ==> view.repaint_window(id) is None,
{
    let all = view.records.dom().len();
    lemma_painter(view, id, all);
    if view.repaint_window(id) is Some {
        let p = view.painter(id, all)->0;
        let w = view.records[p].window->0;
        lemma_viewport_of(view, p, w);
    }
}

/// The registry of viewports.
pub struct Viewports {
    records: IdMap<ViewportId, Window>,
    builders: IdMap<ViewportId, ViewportBuilder>,
    window_ids: IdMap<WindowId, ViewportId>,
}

impl View for Viewports {
    type V = ViewportsView;

    closed spec fn view(&self) -> ViewportsView {
        ViewportsView { records: self.records@, builders: self.builders@ }
    }
}

impl Viewports {
    /// The tables are sound and the reverse index is the inverse of the
    /// records' windows.
    pub closed spec fn index_wf(&self) -> bool {
        &&& self.records.wf()
        &&& self.builders.wf()
        &&& self.window_ids.wf()
        &&& forall|id: ViewportId, w: WindowId| #[trigger]
            self@.owns(id, w) ==> self.window_ids@.contains_key(w) && self.window_ids@[w] == id
        &&& forall|w: WindowId| #[trigger]
            self.window_ids@.contains_key(w) ==> self@.owns(self.window_ids@[w], w)
    }

    /// The registry is sound: its tables agree with each other and the data
    /// model's invariants hold.
    pub open spec fn wf(&self) -> bool {
        self.index_wf() && self@.valid()
    }

    /// A registry that holds the main viewport alone, with the window that
    /// startup made for it, if it made one.
    pub fn new(builder: ViewportBuilder, window: Option<WindowId>) -> (v: Viewports)
        ensures
            v.wf(),
            v@.records == Map::<ViewportId, Window>::empty().insert(
                ViewportId::main(),
                Window { window, ..Window::fresh(ViewportIdPair::main(), None) },
            ),
            v@.builders == Map::<ViewportId, ViewportBuilder>::empty().insert(
                ViewportId::main(),
                builder,
            ),
    {
        let mut records: IdMap<ViewportId, Window> = IdMap::new();
        let mut builders: IdMap<ViewportId, ViewportBuilder> = IdMap::new();
        let mut window_ids: IdMap<WindowId, ViewportId> = IdMap::new();
        let record = Window {
            window,
            surface: None,
            input_state: false,
            render: None,
            pair: ViewportIdPair::main(),
        };
        records.insert(ViewportId::main(), record);
        builders.insert(ViewportId::main(), builder);
        if let Some(w) = window {
            window_ids.insert(w, ViewportId::main());
        }
        Viewports { records, builders, window_ids }
    }

    /// Whether `id` has a record.
    pub fn contains(&self, id: ViewportId) -> (r: bool)
        ensures
            r == self@.records.contains_key(id),
    {
        self.records.contains_key(id)
    }

    /// The record of `id`.
    pub fn get(&self, id: ViewportId) -> (r: Option<Window>)
        ensures
            r == if self@.records.contains_key(id) {
                Some(self@.records[id])
            } else {
                None
            },
    {
        match self.records.get(id) {
            Some(w) => Some(*w),
            None => None,
        }
    }

    /// The builder that `id` was last declared with, brought up to date
    /// with every declaration since. The window of `id` is opened from it.
    pub fn builder(&self, id: ViewportId) -> (r: Option<&ViewportBuilder>)
        ensures
            match r {
                Some(b) => self@.builders.contains_key(id) && *b == self@.builders[id],
                None => !self@.builders.contains_key(id),
            },
    {
        self.builders.get(id)
    }

    /// The open window of `id`.
    pub fn get_window_winit_id(&self, id: ViewportId) -> (r: Option<WindowId>)
        ensures
            r == if self@.records.contains_key(id) {
                self@.records[id].window
            } else {
                None
            },
    {
        match self.records.get(id) {
            Some(w) => w.window,
            None => None,
        }
    }

    /// The viewport that owns the open window `window`.
    pub fn get_window_id(&self, window: WindowId) -> (r: Option<ViewportId>)
        requires
            self.wf(),
        ensures
            r == self@.viewport_of(window),
    {
        match self.window_ids.get(window) {
            Some(id) => Some(*id),
            None => None,
        }
    }

    /// Whether `window` is the open window of some viewport.
    pub fn has_window(&self, window: WindowId) -> (r: bool)
        requires
            self.wf(),
        ensures
            r == self@.has_window(window),
    {
        self.get_window_id(window).is_some()
    }

    /// Installs the OS window that was opened for `id`, together with the
    /// adapter that collects its input. Refused, with nothing changed, where
    /// `id` has no record or the window belongs to another viewport. A
    /// surface that was attached to another window of `id` is gone.
    pub fn set_window(&mut self, id: ViewportId, window: WindowId) -> (installed: bool)
        requires
            old(self).wf(),
        ensures
            final(self).wf(),
            installed == (old(self)@.records.contains_key(id) && (old(self)@.viewport_of(window)
                is None || old(self)@.viewport_of(window) == Some(id))),
            installed ==> final(self)@.records == old(self)@.records.insert(
                id,
                Window {
                    window: Some(window),
                    surface: if old(self)@.records[id].window == Some(window) {
                        old(self)@.records[id].surface
                    } else {
                        None
                    },
                    input_state: true,
                    ..old(self)@.records[id]
                },
            ),
            !installed ==> final(self)@.records == old(self)@.records,
            final(self)@.builders == old(self)@.builders,
    {
        let record = match self.records.get(id) {
            Some(r) => *r,
            None => {
                return false;
            },
        };
        let owner = self.get_window_id(window);
        match owner {
            Some(other) => {
                if other.0 != id.0 {
                    return false;
                }
            },
            None => {},
        }
        let same = match record.window {
            Some(w) => w.0 == window.0,
            None => false,
        };
        if let Some(previous) = record.window {
            if !same {
                self.window_ids.remove(previous);
            }
        }
        self.window_ids.insert(window, id);
        let updated = Window {
            window: Some(window),
            surface: if same {
                record.surface
            } else {
                None
            },
            input_state: true,
            render: record.render,
            pair: record.pair,
        };
        self.records.insert(id, updated);
        proof {
            let pre = old(self)@;
            let post = self@;
            assert(post.records.dom() =~= post.builders.dom());
            assert forall|a: ViewportId, w: WindowId| #[trigger] post.owns(a, w) implies self.window_ids@.contains_key(
                w,
            ) && self.window_ids@[w] == a by {
                if a != id {
                    lemma_viewport_of(pre, a, w);
                    if record.window is Some {
                        assert(pre.owns(id, record.window->0));
                    }
                }
            }
        }
        true
    }

    /// Attaches a graphics surface to the open window of `id`, sized for a
    /// window of the given inner size. Refused, with nothing changed, where
    /// `id` has no open window.
    pub fn set_surface(&mut self, id: ViewportId, width: u32, height: u32) -> (attached: bool)
        requires
            old(self).wf(),
        ensures
            final(self).wf(),
            attached == (old(self)@.records.contains_key(id) && old(self)@.records[id].window
                is Some),
            attached ==> final(self)@.records == old(self)@.records.insert(
                id,
                Window {
                    surface: Some(SurfaceSize::clamped(width, height)),
                    ..old(self)@.records[id]
                },
            ),
            !attached ==> final(self)@.records == old(self)@.records,
            final(self)@.builders == old(self)@.builders,
    {
        let record = match self.records.get(id) {
            Some(r) => *r,
            None => {
                return false;
            },
        };
        if record.window.is_none() {
            return false;
        }
        let updated = Window {
            window: record.window,
            surface: Some(SurfaceSize::clamped(width, height)),
            input_state: record.input_state,
            render: record.render,
            pair: record.pair,
        };
        self.records.insert(id, updated);
        proof {
            self.lemma_same_windows(*old(self));
        }
        true
    }

    /// Detaches the graphics surface of `id`, if it has one.
    pub fn drop_surface(&mut self, id: ViewportId)
        requires
            old(self).wf(),
        ensures
            final(self).wf(),
            final(self)@.records == if old(self)@.records.contains_key(id) {
                old(self)@.records.insert(id, Window { surface: None, ..old(self)@.records[id] })
            } else {
                old(self)@.records
            },
            final(self)@.builders == old(self)@.builders,
    {
        let record = match self.records.get(id) {
            Some(r) => *r,
            None => {
                return ;
            },
        };
        let updated = Window {
            window: record.window,
            surface: None,
            input_state: record.input_state,
            render: record.render,
            pair: record.pair,
        };
        self.records.insert(id, updated);
        proof {
            self.lemma_same_windows(*old(self));
        }
    }

    /// A registry that differs from a sound one only in fields other than
    /// the records' windows, and keeps surfaces within windows, is sound.
    proof fn lemma_same_windows(&self, before: Viewports)
        requires
            before.wf(),
            self.records.wf(),
            self.builders == before.builders,
            self.window_ids == before.window_ids,
            self@.records.dom() =~= before@.records.dom(),
            forall|id: ViewportId| #[trigger]
                self@.records.contains_key(id) ==> {
                    &&& self@.records[id].window == before@.records[id].window
                    &&& self@.records[id].pair == before@.records[id].pair
                    &&& self@.records[id].surface is Some ==> self@.records[id].window is Some
                },
        ensures
            self.wf(),
    {
        let pre = before@;
        let post = self@;
        assert forall|a: ViewportId, w: WindowId| #[trigger] post.owns(a, w) <==> pre.owns(a, w) by {}
    }

    /// Handles a change of a window's inner size. A size with a zero side,
    /// which some platforms report for a minimised window, is ignored; so is
    /// one for a window that is unknown or has no surface. Otherwise the
    /// surface takes the new size, and the owner of the window is returned
    /// for the embedder to resize the real surface at once.
    pub fn resize(&mut self, window: WindowId, width: u32, height: u32) -> (resized: Option<
        ViewportId,
    >)
        requires
            old(self).wf(),
        ensures
            final(self).wf(),
            final(self)@.builders == old(self)@.builders,
            match resized {
                Some(id) => {
                    &&& width > 0 && height > 0
                    &&& old(self)@.viewport_of(window) == Some(id)
                    &&& old(self)@.records[id].surface is Some
                    &&& final(self)@.records == old(self)@.records.insert(
                        id,
                        Window {
                            surface: Some(SurfaceSize { width, height }),
                            ..old(self)@.records[id]
                        },
                    )
                },
                None => {
                    &&& final(self)@.records == old(self)@.records
                    &&& width == 0 || height == 0 || old(self)@.viewport_of(window) is None
                        || old(self)@.records[old(self)@.viewport_of(window)->0].surface is None
                },
            },
    {
        if width == 0 || height == 0 {
            return None;
        }
        let id = match self.get_window_id(window) {
            Some(id) => id,
            None => {
                return None;
            },
        };
        let record = match self.records.get(id) {
            Some(r) => *r,
            None => {
                return None;
            },
        };
        if record.surface.is_none() {
            return None;
        }
        let updated = Window {
            window: record.window,
            surface: Some(SurfaceSize { width, height }),
            input_state: record.input_state,
            render: record.render,
            pair: record.pair,
        };
        self.records.insert(id, updated);
        proof {
            self.lemma_same_windows(*old(self));
        }
        Some(id)
    }

    /// Takes note of one viewport that the UI asked for.
    ///
    /// A viewport that has a record gets its last-seen builder diffed
    /// against the new one. Where the diff asks for a new window, the record
    /// loses window and surface; else the open window takes the diff as
    /// commands. Either way the record takes the declared parent and
    /// callback. A viewport that is new gets a record without a window, and
    /// where its builder names no icon, the icon of its parent's builder.
    pub fn declare(&mut self, output: &ViewportOutput) -> (change: Declared)
        requires
            old(self).wf(),
        ensures
            final(self).wf(),
            declared_step(old(self)@, *output, final(self)@),
            declared_change(old(self)@, *output, change),
    {
        let id = output.pair.this;
        let known = match self.records.get(id) {
            Some(r) => Some(*r),
            None => None,
        };
        match known {
            Some(last) => {
                let mut kept = self.builders.remove(id).unwrap();
                let (commands, recreate) = patch_builder(&mut kept, clone_builder(&output.builder));
                self.builders.insert(id, kept);
                let updated = Window {
                    window: if recreate {
                        None
                    } else {
                        last.window
                    },
                    surface: if recreate {
                        None
                    } else {
                        last.surface
                    },
                    input_state: last.input_state,
                    render: output.render,
                    pair: output.pair,
                };
                self.records.insert(id, updated);
                let change = match last.window {
                    Some(window) => {
                        if recreate {
                            self.window_ids.remove(window);
                            Declared::Recreate(ClosedWindow { viewport: id, window })
                        } else {
                            Declared::Patch(WindowCommands { viewport: id, window, commands })
                        }
                    },
                    None => Declared::Nothing,
                };
                proof {
                    self.lemma_declared_known(*old(self), id, last, updated);
                }
                change
            },
            None => {
                let mut kept = clone_builder(&output.builder);
                if builder_icon(&kept).is_none() {
                    match self.builders.get(output.pair.parent) {
                        Some(parent) => {
                            set_builder_icon(&mut kept, builder_icon(parent));
                        },
                        None => {},
                    }
                }
                let _ = patch_builder(&mut kept, clone_builder(&output.builder));
                self.builders.insert(id, kept);
                self.records.insert(id, Window::fresh(output.pair, output.render));
                proof {
                    let pre = old(self)@;
                    let post = self@;
                    assert forall|a: ViewportId, w: WindowId| #[trigger] post.owns(a, w) <==> pre.owns(
                        a,
                        w,
                    ) by {}
                }
                Declared::Nothing
            },
        }
    }

    /// Soundness after the record of a known viewport was replaced by one
    /// that keeps its window or loses it.
    proof fn lemma_declared_known(&self, before: Viewports, id: ViewportId, last: Window, updated: Window)
        requires
            before.wf(),
            before@.records.contains_key(id),
            before@.records[id] == last,
            self.records.wf(),
            self.builders.wf(),
            self.window_ids.wf(),
            self@.records == before@.records.insert(id, updated),
            self@.builders.dom() =~= before@.builders.dom(),
            updated.pair.this == id,
            updated.window == last.window || updated.window is None,
            updated.surface is Some ==> updated.window is Some,
            self.window_ids@ == if last.window is Some && updated.window is None {
                before.window_ids@.remove(last.window->0)
            } else {
                before.window_ids@
            },
        ensures
            self.wf(),
    {
        let pre = before@;
        let post = self@;
        assert(post.records.dom() =~= pre.records.dom());
        assert forall|a: ViewportId, w: WindowId| #[trigger] post.owns(a, w) implies pre.owns(a, w) by {}
        assert forall|a: ViewportId, w: WindowId| #[trigger] post.owns(a, w) implies self.window_ids@.contains_key(
            w,
        ) && self.window_ids@[w] == a by {
            if last.window is Some && updated.window is None {
                assert(pre.owns(id, last.window->0));
            }
        }
        assert forall|w: WindowId| #[trigger] self.window_ids@.contains_key(w) implies post.owns(
            self.window_ids@[w],
            w,
        ) by {
        }
    }

    /// Drops the record and the builder of a viewport other than the main
    /// one, and returns the record: its window, if it has one, is for the
    /// embedder to close. The main viewport is never dropped.
    pub fn remove(&mut self, id: ViewportId) -> (removed: Option<Window>)
        requires
            old(self).wf(),
        ensures
            final(self).wf(),
            match removed {
                Some(record) => {
                    &&& !id.is_main()
                    &&& old(self)@.records.contains_key(id)
                    &&& record == old(self)@.records[id]
                    &&& final(self)@.records == old(self)@.records.remove(id)
                    &&& final(self)@.builders == old(self)@.builders.remove(id)
                },
                None => {
                    &&& id.is_main() || !old(self)@.records.contains_key(id)
                    &&& final(self)@ == old(self)@
                },
            },
    {
        if id.is_main() {
            return None;
        }
        let record = match self.records.remove(id) {
            Some(r) => r,
            None => {
                assert(self@.records =~= old(self)@.records);
                return None;
            },
        };
        self.builders.remove(id);
        if let Some(window) = record.window {
            self.window_ids.remove(window);
        }
        proof {
            let pre = old(self)@;
            let post = self@;
            assert forall|a: ViewportId, w: WindowId| #[trigger] post.owns(a, w) implies pre.owns(a, w) by {}
            assert forall|a: ViewportId, w: WindowId| #[trigger] post.owns(a, w) implies self.window_ids@.contains_key(
                w,
            ) && self.window_ids@[w] == a by {
                if record.window is Some {
                    assert(pre.owns(id, record.window->0));
                }
            }
        }
        Some(record)
    }

    /// Gives up every open window and surface, as a platform asks for that
    /// takes them away while the application is in the background. What is
    /// not graphics stays: the records, their parents and callbacks, and the
    /// builders, from which the windows are opened again on resume. Returns
    /// the windows that were open, for the embedder to close.
    pub fn suspend(&mut self) -> (closed: Vec<ClosedWindow>)
        requires
            old(self).wf(),
        ensures
            final(self).wf(),
            final(self)@.builders == old(self)@.builders,
            final(self)@.records.dom() == old(self)@.records.dom(),
            forall|id: ViewportId| #[trigger]
                final(self)@.records.contains_key(id) ==> final(self)@.records[id] == (Window {
                    window: None,
                    surface: None,
                    ..old(self)@.records[id]
                }),
            closed@.no_duplicates(),
            forall|c: ClosedWindow| #[trigger]
                closed@.contains(c) <==> old(self)@.owns(c.viewport, c.window),
    {
        let mut closed: Vec<ClosedWindow> = Vec::new();
        let n: usize = self.records.len();
        let ghost keys = self.records.keys();
        let ghost pre = old(self)@;
        let mut i: usize = 0;
        while i < n
            invariant
                i <= n,
                n == keys.len(),
                old(self).wf(),
                pre == old(self)@,
                self.records.wf(),
                self.records.keys() == keys,
                keys == old(self).records.keys(),
                self.builders == old(self).builders,
                self.window_ids == old(self).window_ids,
                self@.records.dom() =~= pre.records.dom(),
                forall|j: int|
                    0 <= j < n ==> #[trigger] self@.records[keys[j]] == if j < i {
                        Window { window: None, surface: None, ..pre.records[keys[j]] }
                    } else {
                        pre.records[keys[j]]
                    },
                closed@.no_duplicates(),
                forall|k: int|
                    0 <= k < closed@.len() ==> exists|j: int|
                        0 <= j < i && keys[j] == (#[trigger] closed@[k]).viewport,
                forall|k: int|
                    0 <= k < closed@.len() ==> pre.owns(
                        (#[trigger] closed@[k]).viewport,
                        closed@[k].window,
                    ),
                forall|j: int, w: WindowId|
                    0 <= j < i && #[trigger] pre.owns(keys[j], w) ==> closed@.contains(
                        ClosedWindow { viewport: keys[j], window: w },
                    ),
            decreases n - i,
        {
            let id = self.records.key_at(i);
            assert(keys.contains(keys[i as int]));
            let record = *self.records.get(id).unwrap();
            let ghost before_push = closed@;
            if let Some(window) = record.window {
                let entry = ClosedWindow { viewport: id, window };
                closed.push(entry);
                proof {
                    assert(closed@[before_push.len() as int] == entry);
                    assert forall|j: int, w: WindowId|
                        0 <= j < i + 1 && #[trigger] pre.owns(keys[j], w) implies closed@.contains(
                        ClosedWindow { viewport: keys[j], window: w },
                    ) by {
                        if j < i {
                            let c = ClosedWindow { viewport: keys[j], window: w };
                            let k = before_push.index_of(c);
                            assert(closed@[k] == c);
                        }
                    }
                }
            }
            let stripped = Window {
                window: None,
                surface: None,
                input_state: record.input_state,
                render: record.render,
                pair: record.pair,
            };
            self.records.insert(id, stripped);
            i += 1;
        }
        self.window_ids = IdMap::new();
        proof {
            let post = self@;
            assert forall|id: ViewportId| #[trigger] post.records.contains_key(id) implies post.records[id]
                == (Window { window: None, surface: None, ..pre.records[id] }) by {
                assert(keys.contains(id));
            }
            assert forall|c: ClosedWindow| #[trigger] closed@.contains(c) <==> pre.owns(
                c.viewport,
                c.window,
            ) by {
                if pre.owns(c.viewport, c.window) {
                    assert(keys.contains(c.viewport));
                }
            }
            assert forall|a: ViewportId, w: WindowId| !#[trigger] post.owns(a, w) by {}
        }
        closed
    }

    /// The viewports that have no graphics surface: those whose window is
    /// still to be opened, and those whose surface is still to be attached.
    pub fn without_surface(&self) -> (ids: Vec<ViewportId>)
        requires
            self.wf(),
        ensures
            ids@.no_duplicates(),
            forall|id: ViewportId| #[trigger]
                ids@.contains(id) <==> self@.records.contains_key(id) && self@.records[id].surface
                    is None,
    {
        let mut ids: Vec<ViewportId> = Vec::new();
        let n: usize = self.records.len();
        let ghost keys = self.records.keys();
        let mut i: usize = 0;
        while i < n
            invariant
                i <= n,
                n == keys.len(),
                self.wf(),
                keys == self.records.keys(),
                ids@.no_duplicates(),
                forall|k: int|
                    0 <= k < ids@.len() ==> exists|j: int| 0 <= j < i && keys[j] == #[trigger] ids@[k],
                forall|k: int|
                    0 <= k < ids@.len() ==> self@.records[#[trigger] ids@[k]].surface is None,
                forall|j: int|
                    0 <= j < i && self@.records[#[trigger] keys[j]].surface is None ==> ids@.contains(
                        keys[j],
                    ),
            decreases n - i,
        {
            let id = self.records.key_at(i);
            assert(keys.contains(keys[i as int]));
            let record = *self.records.get(id).unwrap();
            if record.surface.is_none() {
                let ghost before_push = ids@;
                ids.push(id);
                proof {
                    assert(ids@[before_push.len() as int] == id);
                    assert forall|j: int|
                        0 <= j < i + 1 && self@.records[#[trigger] keys[j]].surface
                            is None implies ids@.contains(keys[j]) by {
                        if j < i {
                            let k = before_push.index_of(keys[j]);
                            assert(ids@[k] == keys[j]);
                        }
                    }
                }
            }
            i += 1;
        }
        proof {
            assert forall|id: ViewportId| #[trigger]
                ids@.contains(id) <==> self@.records.contains_key(id) && self@.records[id].surface
                    is None by {
                if ids@.contains(id) {
                    let k = ids@.index_of(id);
                    let j = choose|j: int| 0 <= j < i && keys[j] == ids@[k];
                    assert(keys.contains(keys[j]));
                }
                if self@.records.contains_key(id) && self@.records[id].surface is None {
                    assert(keys.contains(id));
                }
            }
        }
        ids
    }

    /// The viewports that have a record, each once.
    pub fn ids(&self) -> (ids: Vec<ViewportId>)
        requires
            self.wf(),
        ensures
            ids@.no_duplicates(),
            forall|id: ViewportId| #[trigger] ids@.contains(id) <==> self@.records.contains_key(id),
    {
        self.records.key_list()
    }

    /// Brings the registry in line with the viewports that the UI declared
    /// in the frame that was just painted.
    ///
    /// First every declared viewport that has a record is declared, in the
    /// order of the list; then every one that is new; then every record that
    /// was not declared is dropped, but for the main one. The windows to
    /// close are exactly those that were open and no longer belong to their
    /// viewport. The windows to send commands to are exactly the open
    /// windows of declared viewports that stay open.
    pub fn reconcile(&mut self, declared: &Vec<ViewportOutput>) -> (asked: Reconciled)
        requires
            old(self).wf(),
        ensures
            final(self).wf(),
            reconciled(old(self)@, declared@, final(self)@),
            asked_of(old(self)@, declared@, final(self)@, asked),
    {
        let ghost pre = old(self)@;
        let ghost ds = declared@;
        let n: usize = declared.len();
        let mut closed: Vec<ClosedWindow> = Vec::new();
        let mut commands: Vec<WindowCommands> = Vec::new();
        let mut seen: Vec<ViewportId> = Vec::new();
        // the viewports that have a record
        let mut i: usize = 0;
        while i < n
            invariant
                i <= n,
                n == ds.len(),
                ds == declared@,
                pre == old(self)@,
                pre.valid(),
                self.wf(),
                seen@.no_duplicates(),
                forall|id: ViewportId| #[trigger]
                    seen@.contains(id) <==> declares(ds.take(i as int), id),
                self@.records.dom() =~= pre.records.dom(),
                forall|id: ViewportId|
                    pre.records.contains_key(id) && !seen@.contains(id) ==> #[trigger] self@.records[id]
                        == pre.records[id] && self@.builders[id] == pre.builders[id],
                forall|id: ViewportId, w: WindowId| #[trigger] self@.owns(id, w) ==> pre.owns(id, w),
                forall|j: int|
                    0 <= j < i && #[trigger] is_first(ds, j) && pre.records.contains_key(
                        ds[j].pair.this,
                    ) ==> {
                        let id = ds[j].pair.this;
                        &&& self@.records[id] == declared_record(pre, ds[j])
                        &&& !patch_recreates(self@.builders[id], ds[j].builder)
                        &&& icon_of(self@.builders[id]) == icon_or(
                            icon_of(ds[j].builder),
                            icon_of(pre.builders[id]),
                        )
                    },
                closed@.no_duplicates(),
                forall|c: ClosedWindow| #[trigger]
                    closed@.contains(c) <==> pre.owns(c.viewport, c.window) && !self@.owns(
                        c.viewport,
                        c.window,
                    ),
                forall|a: int, b: int|
                    0 <= a < b < commands@.len() ==> (#[trigger] commands@[a]).viewport != (
                    #[trigger] commands@[b]).viewport,
                forall|k: int|
                    0 <= k < commands@.len() ==> {
                        let c = #[trigger] commands@[k];
                        seen@.contains(c.viewport) && pre.owns(c.viewport, c.window) && self@.owns(
                            c.viewport,
                            c.window,
                        )
                    },
                forall|id: ViewportId, w: WindowId|
                    seen@.contains(id) && pre.owns(id, w) && #[trigger] self@.owns(id, w)
                        ==> exists|k: int|
                        0 <= k < commands@.len() && (#[trigger] commands@[k]).viewport == id,
            decreases n - i,
        {
            let output = &declared[i];
            let id = output.pair.this;
            let ghost before = self@;
            let ghost seen_before = seen@;
            let ghost closed_before = closed@;
            let ghost commands_before = commands@;
            proof {
                lemma_declares_take(ds, i as int);
            }
            if !contains_id(&seen, id) {
                seen.push(id);
                proof {
                    lemma_push_contains(seen_before, id);
                    assert(is_first(ds, i as int)) by {
                        assert forall|j: int| 0 <= j < i implies #[trigger] ds[j].pair.this != id by {
                            if ds[j].pair.this == id {
                                assert(ds.take(i as int)[j].pair.this == id);
                            }
                        }
                    }
                }
                if self.contains(id) {
                    let change = self.declare(output);
                    match change {
                        Declared::Recreate(c) => {
                            proof {
                                lemma_push_contains(closed_before, c);
                            }
                            closed.push(c);
                        },
                        Declared::Patch(c) => {
                            commands.push(c);
                            proof {
                                assert(commands@[commands_before.len() as int].viewport == id);
                            }
                        },
                        Declared::Nothing => {},
                    }
                    proof {
                        assert forall|c: ClosedWindow| #[trigger]
                            closed@.contains(c) <==> pre.owns(c.viewport, c.window) && !self@.owns(
                                c.viewport,
                                c.window,
                            ) by {
                            if c.viewport != id {
                                assert(closed_before.contains(c) <==> closed@.contains(c));
                            } else {
                                assert(!closed_before.contains(c)) by {
                                }
                            }
                        }
                        assert forall|id2: ViewportId, w: WindowId|
                            seen@.contains(id2) && pre.owns(id2, w) && #[trigger] self@.owns(
                                id2,
                                w,
                            ) implies exists|k: int|
                            0 <= k < commands@.len() && (#[trigger] commands@[k]).viewport == id2 by {
                            if id2 != id {
                                assert(before.owns(id2, w));
                                let k = choose|k: int|
                                    0 <= k < commands_before.len() && (
                                    #[trigger] commands_before[k]).viewport == id2;
                                assert(commands@[k].viewport == id2);
                            }
                        }
                    }
                }
            }
            proof {
                assert forall|x: ViewportId| #[trigger]
                    seen@.contains(x) <==> declares(ds.take(i + 1), x) by {
                    assert(seen_before.contains(x) <==> declares(ds.take(i as int), x));
                }
                assert forall|x: ViewportId, w: WindowId| #[trigger] self@.owns(x, w) implies pre.owns(
                    x,
                    w,
                ) by {
                    if x == id && self@ != before {
                    } else {
                        assert(before.owns(x, w));
                    }
                }
            }
            i += 1;
        }
        proof {
            assert(ds.take(n as int) =~= ds);
        }
        let ghost mid = self@;
        let ghost closed_mid = closed@;
        // the viewports that are new
        let mut i: usize = 0;
        while i < n
            invariant
                i <= n,
                n == ds.len(),
                ds == declared@,
                pre == old(self)@,
                pre.valid(),
                self.wf(),
                closed@ == closed_mid,
                forall|id: ViewportId| #[trigger] seen@.contains(id) <==> declares(ds, id),
                forall|id: ViewportId| #[trigger]
                    self@.records.contains_key(id) <==> pre.records.contains_key(id) || declares(
                        ds.take(i as int),
                        id,
                    ),
                forall|id: ViewportId|
                    pre.records.contains_key(id) ==> #[trigger] self@.records[id] == mid.records[id]
                        && self@.builders[id] == mid.builders[id],
                forall|id: ViewportId, w: WindowId|
                    #[trigger] self@.owns(id, w) <==> mid.owns(id, w),
                forall|j: int|
                    0 <= j < i && #[trigger] is_first(ds, j) && !pre.records.contains_key(
                        ds[j].pair.this,
                    ) ==> {
                        let id = ds[j].pair.this;
                        &&& self@.records[id] == declared_record(pre, ds[j])
                        &&& !patch_recreates(self@.builders[id], ds[j].builder)
                        &&& icon_of(self@.builders[id]) == icon_or(
                            icon_of(ds[j].builder),
                            parent_icon_so_far(pre, mid, self@, ds, j),
                        )
                    },
            decreases n - i,
        {
            let output = &declared[i];
            let id = output.pair.this;
            let ghost before = self@;
            proof {
                lemma_declares_take(ds, i as int);
                lemma_declares_before(ds, i as int);
            }
            if !self.contains(id) {
                proof {
                    assert(is_first(ds, i as int)) by {
                        assert forall|j: int| 0 <= j < i implies #[trigger] ds[j].pair.this != id by {
                            if ds[j].pair.this == id {
                                assert(ds.take(i as int)[j].pair.this == id);
                            }
                        }
                    }
                }
                let _ = self.declare(output);
                proof {
                    assert forall|id2: ViewportId, w: WindowId|
                        #[trigger] self@.owns(id2, w) <==> mid.owns(id2, w) by {
                        if id2 != id {
                            assert(self@.owns(id2, w) <==> before.owns(id2, w));
                        } else {
                            assert(!before.owns(id2, w));
                        }
                    }
                    assert forall|j: int|
                        0 <= j < i + 1 && #[trigger] is_first(ds, j) && !pre.records.contains_key(
                            ds[j].pair.this,
                        ) implies {
                        let x = ds[j].pair.this;
                        &&& self@.records[x] == declared_record(pre, ds[j])
                        &&& !patch_recreates(self@.builders[x], ds[j].builder)
                        &&& icon_of(self@.builders[x]) == icon_or(
                            icon_of(ds[j].builder),
                            parent_icon_so_far(pre, mid, self@, ds, j),
                        )
                    } by {
                        let parent = ds[j].pair.parent;
                        if j < i {
                            let x = ds[j].pair.this;
                            assert(ds.take(i as int)[j].pair.this == x);
                            if !pre.records.contains_key(parent) && declares_before(ds, j, parent) {
                                let k = choose|k: int|
                                    0 <= k < j && k < ds.len() && #[trigger] ds[k].pair.this
                                        == parent;
                                assert(ds.take(i as int)[k].pair.this == parent);
                            }
                        }
                    }
                }
            }
            i += 1;
        }
        let ghost grown = self@;
        // the records that were not declared
        let known = self.ids();
        let m: usize = known.len();
        let mut k: usize = 0;
        while k < m
            invariant
                k <= m,
                m == known@.len(),
                pre == old(self)@,
                pre.valid(),
                self.wf(),
                known@.no_duplicates(),
                forall|id: ViewportId| #[trigger] known@.contains(id) <==> grown.records.contains_key(id),
                forall|id: ViewportId| #[trigger] seen@.contains(id) <==> declares(ds, id),
                forall|id: ViewportId| #[trigger]
                    self@.records.contains_key(id) <==> grown.records.contains_key(id) && (
                    id.is_main() || declares(ds, id) || !known@.take(k as int).contains(id)),
                forall|id: ViewportId| #[trigger]
                    self@.records.contains_key(id) ==> self@.records[id] == grown.records[id]
                        && self@.builders[id] == grown.builders[id],
                forall|id: ViewportId, w: WindowId| #[trigger] grown.owns(id, w) ==> pre.owns(id, w),
                closed@.no_duplicates(),
                forall|c: ClosedWindow| #[trigger]
                    closed@.contains(c) <==> pre.owns(c.viewport, c.window) && !self@.owns(
                        c.viewport,
                        c.window,
                    ),
            decreases m - k,
        {
            let id = known[k];
            let ghost closed_before = closed@;
            proof {
                assert(known@.take(k + 1) =~= known@.take(k as int).push(id));
                lemma_push_contains(known@.take(k as int), id);
            }
            if !id.is_main() && !contains_id(&seen, id) {
                let removed = self.remove(id);
                match removed {
                    Some(record) => {
                        if let Some(window) = record.window {
                            let c = ClosedWindow { viewport: id, window };
                            proof {
                                assert(grown.owns(id, window));
                                lemma_push_contains(closed_before, c);
                            }
                            closed.push(c);
                        }
                    },
                    None => {},
                }
                proof {
                    assert forall|c: ClosedWindow| #[trigger]
                        closed@.contains(c) <==> pre.owns(c.viewport, c.window) && !self@.owns(
                            c.viewport,
                            c.window,
                        ) by {
                        if c.viewport != id {
                            assert(closed_before.contains(c) <==> closed@.contains(c));
                        } else {
                            if closed_before.contains(c) {
                            }
                        }
                    }
                }
            }
            k += 1;
        }
        proof {
            assert(known@.take(m as int) =~= known@);
            let post = self@;
            assert forall|j: int| #[trigger] is_first(ds, j) implies {
                let id = ds[j].pair.this;
                &&& post.records[id] == declared_record(pre, ds[j])
                &&& !patch_recreates(post.builders[id], ds[j].builder)
                &&& icon_of(post.builders[id]) == icon_or(
                    icon_of(ds[j].builder),
                    if pre.records.contains_key(id) {
                        icon_of(pre.builders[id])
                    } else {
                        parent_icon(pre, post, ds, j)
                    },
                )
            } by {
                let id = ds[j].pair.this;
                let parent = ds[j].pair.parent;
                assert(post.records.contains_key(id));
                if !pre.records.contains_key(id) {
                    if pre.records.contains_key(parent) {
                        if declares(ds, parent) {
                            assert(post.records.contains_key(parent));
                        }
                    } else if declares_before(ds, j, parent) {
                        let k = choose|k: int|
                            0 <= k < j && k < ds.len() && #[trigger] ds[k].pair.this == parent;
                        assert(post.records.contains_key(parent));
                    }
                }
            }
        }
        let ghost listed = commands@;
        let asked = Reconciled { closed, commands };
        proof {
            assert(asked.commands@ == listed);
            assert forall|id: ViewportId, w: WindowId|
                declares(declared@, id) && old(self)@.owns(id, w) && #[trigger] self@.owns(
                    id,
                    w,
                ) implies exists|k: int|
                0 <= k < asked.commands@.len() && (#[trigger] asked.commands@[k]).viewport == id by {
                assert(grown.owns(id, w));
            }
        }
        asked
    }

    /// Whether `window` is the open window of a viewport that has frames
    /// of its own.
    pub fn paints_itself(&self, window: WindowId) -> (r: bool)
        requires
            self.wf(),
        ensures
            r == self@.paints_itself(window),
    {
        match self.get_window_id(window) {
            Some(id) => {
                match self.records.get(id) {
                    Some(record) => !record.is_sync_child(),
                    None => false,
                }
            },
            None => false,
        }
    }

    /// The window that is redrawn to have `id` painted.
    pub fn repaint_window(&self, id: ViewportId) -> (window: Option<WindowId>)
        requires
            self.wf(),
        ensures
            window == self@.repaint_window(id),
    {
        let mut left: usize = self.len();
        let mut current = id;
        let ghost all = self@.records.dom().len();
        loop
            invariant
                self.wf(),
                all == self@.records.dom().len(),
                self@.painter(id, all) == self@.painter(current, left as nat),
            decreases left,
        {
            let record = match self.records.get(current) {
                Some(r) => *r,
                None => {
                    return None;
                },
            };
            if !record.is_sync_child() {
                return record.window;
            }
            if left == 0 {
                return None;
            }
            current = record.pair.parent;
            left = left - 1;
        }
    }

    /// How many viewports have a record.
    pub fn len(&self) -> (n: usize)
        requires
            self.wf(),
        ensures
            n == self@.records.dom().len(),
            n >= 1,
    {
        proof {
            self.records.lemma_len();
        }
        self.records.len()
    }
}

} // verus!
