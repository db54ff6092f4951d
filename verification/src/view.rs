//! Terminal sessions and their registry.
//!
//! A `TerminalView` owns one VT engine instance and the per-session state
//! around it: the coalesced wakeup flag, the dirty flag a resize sets, and
//! the last extracted snapshot. The surrounding application owns the
//! pseudo-terminal and its reader thread; it hands every chunk of child
//! output to `process_output` in file order and performs the blocking I/O
//! itself. A `TerminalManager` keys the sessions by monotonically increasing
//! identifiers that are never reused, even after a session is destroyed.

use vstd::prelude::*;

use crate::content::{
    spec_content_cells, spec_extract_text, extract_text, snapshot_bg, snapshot_fg,
    TerminalContent,
};
use crate::engine::{cursor_col, cursor_row, cursor_visible, blank_cell, grid_cells, grid_cols,
    grid_rows, TermGridSize, VtEngine};
use crate::{TerminalId, TerminalMode};

verus! {

/// An engine-emitted event, as the proxy classifies it.
#[derive(Debug, Clone)]
pub enum TermEvent {
    /// New content to render.
    Wakeup,
    /// The child changed the window title; carries no further state here.
    Title(String),
    /// The bell rang; carries no further state here.
    Bell,
    /// The child process exited; carries no further state here.
    Exit,
}

/// Bridges engine events to the session: content changes coalesce into a
/// single wakeup flag that the control thread tests and clears.
#[derive(Debug)]
pub struct NeomacsEventProxy {
    pub id: TerminalId,
    /// Signals that the terminal has new content to render.
    pub wakeup: bool,
}

impl NeomacsEventProxy {
    pub fn new(id: TerminalId) -> (p: Self)
        ensures
            p.id == id,
            !p.wakeup,
    {
        NeomacsEventProxy { id, wakeup: false }
    }

    /// Check and clear the wakeup flag.
    pub fn take_wakeup(&mut self) -> (was_set: bool)
        ensures
            was_set == old(self).wakeup,
            !final(self).wakeup,
            final(self).id == old(self).id,
    {
        let was_set = self.wakeup;
        self.wakeup = false;
        was_set
    }

    /// Classify an engine event. A wakeup sets the coalesced flag —
    /// repeated signals before a consumer checks collapse to one. The other
    /// events are side-channel notifications that carry no state in this
    /// core; the surrounding application logs them.
    pub fn send_event(&mut self, event: &TermEvent)
        ensures
            final(self).wakeup == (old(self).wakeup || event is Wakeup),
            final(self).id == old(self).id,
    {
        match event {
            TermEvent::Wakeup => {
                self.wakeup = true;
            },
            TermEvent::Title(_) => {},
            TermEvent::Bell => {},
            TermEvent::Exit => {},
        }
    }
}

/// Two takes of the wakeup flag with no event in between return the flag's
/// value and then `false`: the first take already clears the flag.
///
/// `r1`/`p1` are what the first `take_wakeup` returns and leaves behind,
/// `r2`/`p2` the same for the second, exactly as its contract states them.
pub proof fn lemma_take_wakeup_twice(
    p0: NeomacsEventProxy,
    r1: bool,
    p1: NeomacsEventProxy,
    r2: bool,
    p2: NeomacsEventProxy,
)
    requires
        r1 == p0.wakeup,
        !p1.wakeup,
        r2 == p1.wakeup,
        !p2.wakeup,
    ensures
        p0.wakeup ==> r1 && !r2,
        !p0.wakeup ==> !r1 && !r2,
{
}

/// A single terminal session: one engine, its wakeup proxy, the dirty flag,
/// and the last extracted snapshot.
pub struct TerminalView {
    pub id: TerminalId,
    pub mode: TerminalMode,
    /// The VT engine holding the grid (shared with no one: the application's
    /// reader loop hands output chunks to `process_output`).
    pub term: VtEngine,
    /// Event proxy for wakeup notifications.
    pub event_proxy: NeomacsEventProxy,
    /// Cached content from last extraction.
    pub last_content: Option<TerminalContent>,
    /// Whether a resize forced the next extraction.
    pub dirty: bool,
    /// The most recently requested grid size.
    pub cols: u16,
    pub rows: u16,
}

impl TerminalView {
    /// The session's grid always has exactly the most recently requested
    /// dimensions.
    pub open spec fn wf(self) -> bool {
        &&& self.cols >= 1
        &&& self.rows >= 1
        &&& grid_cols(self.term) == self.cols as nat
        &&& grid_rows(self.term) == self.rows as nat
        &&& grid_cells(self.term).len() == grid_rows(self.term) * grid_cols(self.term)
    }

    /// Whether the next `update_content` will extract a snapshot.
    pub open spec fn needs_update(self) -> bool {
        self.event_proxy.wakeup || self.dirty
    }

    /// Create a session with the given grid dimensions. The grid starts
    /// blank, the cursor at the origin and visible, and the session dirty,
    /// so the first content update reports a change.
    pub fn new(id: TerminalId, cols: u16, rows: u16, mode: TerminalMode) -> (v: TerminalView)
        requires
            cols >= 1,
            rows >= 1,
        ensures
            v.wf(),
            v.id == id,
            v.mode == mode,
            v.cols == cols,
            v.rows == rows,
            v.dirty,
            !v.event_proxy.wakeup,
            v.event_proxy.id == id,
            v.last_content is None,
            forall|i: int|
                0 <= i < grid_cells(v.term).len() ==> grid_cells(v.term)[i] == blank_cell(),
            cursor_col(v.term) == 0,
            cursor_row(v.term) == 0,
            cursor_visible(v.term),
    {
        let size = TermGridSize::new(cols, rows);
        TerminalView {
            id,
            mode,
            term: VtEngine::new(&size),
            event_proxy: NeomacsEventProxy::new(id),
            last_content: None,
            dirty: true,
            cols,
            rows,
        }
    }

    /// Feed one chunk of child output through the engine's interpreter and
    /// signal the change. The application's reader loop calls this with each
    /// chunk it reads from the pseudo-terminal, in file order, so the grid
    /// always reflects a prefix of the byte stream the child produced.
    pub fn process_output(&mut self, bytes: &[u8])
        requires
            old(self).wf(),
        ensures
            final(self).wf(),
            final(self).event_proxy.wakeup,
            final(self).event_proxy.id == old(self).event_proxy.id,
            final(self).id == old(self).id,
            final(self).mode == old(self).mode,
            final(self).cols == old(self).cols,
            final(self).rows == old(self).rows,
            final(self).dirty == old(self).dirty,
            final(self).last_content == old(self).last_content,
    {
        self.term.advance(bytes);
        self.event_proxy.send_event(&TermEvent::Wakeup);
    }

    /// Resize the grid; reflow and truncation are the engine's policy. The
    /// grid dimensions and the dirty flag change together, so the next
    /// content update reports a change even if no new output arrives.
    pub fn resize(&mut self, cols: u16, rows: u16)
        requires
            old(self).wf(),
            cols >= 1,
            rows >= 1,
        ensures
            final(self).wf(),
            final(self).cols == cols,
            final(self).rows == rows,
            final(self).dirty,
            final(self).id == old(self).id,
            final(self).mode == old(self).mode,
            final(self).event_proxy == old(self).event_proxy,
            final(self).last_content == old(self).last_content,
    {
        let size = TermGridSize::new(cols, rows);
        self.term.resize(&size);
        self.cols = cols;
        self.rows = rows;
        self.dirty = true;
    }

    /// Extract current content for rendering; reports whether content
    /// changed. The fast path tests the wakeup and dirty flags without
    /// touching the grid: when neither is set, nothing is extracted and the
    /// cached snapshot stays. Otherwise a fresh snapshot of the whole grid
    /// replaces the cached one and both flags end up clear.
    pub fn update_content(&mut self) -> (changed: bool)
        requires
            old(self).wf(),
        ensures
            final(self).wf(),
            changed == old(self).needs_update(),
            !final(self).event_proxy.wakeup,
            !final(self).dirty,
            final(self).term == old(self).term,
            final(self).id == old(self).id,
            final(self).mode == old(self).mode,
            final(self).cols == old(self).cols,
            final(self).rows == old(self).rows,
            final(self).event_proxy.id == old(self).event_proxy.id,
            !changed ==> final(self).last_content == old(self).last_content,
            changed ==> (final(self).last_content matches Some(c) && {
                &&& c.cells@ == spec_content_cells(final(self).term)
                &&& c.cols == final(self).cols as usize
                &&& c.rows == final(self).rows as usize
                &&& c.cursor.col as nat == cursor_col(final(self).term)
                &&& c.cursor.row as nat == cursor_row(final(self).term)
                &&& c.cursor.visible == cursor_visible(final(self).term)
                &&& c.default_fg == snapshot_fg()
                &&& c.default_bg == snapshot_bg()
            }),
    {
        if self.event_proxy.take_wakeup() || self.dirty {
            self.last_content = Some(TerminalContent::from_term(&self.term));
            self.dirty = false;
            true
        } else {
            false
        }
    }

    /// The last extracted content, if any update has succeeded yet.
    pub fn content(&self) -> (c: Option<&TerminalContent>)
        ensures
            c is Some <==> self.last_content is Some,
            c matches Some(r) ==> *r == self.last_content->0,
    {
        self.last_content.as_ref()
    }

    /// Extract the text of a rectangular region of the live grid, both
    /// corners inclusive. Trailing whitespace is trimmed from each output
    /// line; leading and interior spacing is preserved.
    pub fn get_text(&self, start_row: usize, start_col: usize, end_row: usize, end_col: usize) -> (text:
        String)
        ensures
            text@ == spec_extract_text(
                grid_cells(self.term),
                grid_cols(self.term),
                grid_rows(self.term),
                start_row as int,
                start_col as int,
                end_row as int,
                end_col as int,
            ),
    {
        extract_text(&self.term, start_row, start_col, end_row, end_col)
    }

    /// All visible text: the whole grid as a text region.
    pub fn get_visible_text(&self) -> (text: String)
        requires
            self.wf(),
        ensures
            text@ == spec_extract_text(
                grid_cells(self.term),
                grid_cols(self.term),
                grid_rows(self.term),
                0,
                0,
                self.rows as int - 1,
                self.cols as int - 1,
            ),
    {
        let rows = self.rows as usize;
        let cols = self.cols as usize;
        self.get_text(0, 0, rows - 1, cols - 1)
    }
}

/// After a resize, the next content update reports a change even though no
/// wakeup was signalled, and a second update with no intervening event or
/// resize reports none: a resize forces exactly one reported change.
///
/// `after_resize` is a session as `resize` leaves it; `after_update` is a
/// session as `update_content` leaves it, with no event delivered since.
pub proof fn lemma_resize_forces_one_change(after_resize: TerminalView, after_update: TerminalView)
    requires
        after_resize.dirty,
        !after_update.dirty,
        !after_update.event_proxy.wakeup,
    ensures
        after_resize.needs_update(),
        !after_update.needs_update(),
{
}

/// Manages all terminal sessions, keyed by id.
pub struct TerminalManager {
    /// The registered sessions, in strictly increasing id order.
    pub terminals: Vec<TerminalView>,
    /// The id the next `create` hands out: above every id ever registered.
    pub next_id: TerminalId,
}

/// The ids of the sessions in `vs` from position `i` on whose next content
/// update will report a change.
pub open spec fn spec_changed_ids(vs: Seq<TerminalView>, i: int) -> Seq<TerminalId>
    decreases vs.len() - i,
{
    if i < 0 || i >= vs.len() {
        Seq::empty()
    } else {
        let rest = spec_changed_ids(vs, i + 1);
        if vs[i].needs_update() {
            seq![vs[i].id] + rest
        } else {
            rest
        }
    }
}

impl TerminalManager {
    /// Sessions are well formed and their ids strictly increase along the
    /// registry; every registered id is below `next_id`, so an id is never
    /// handed out twice.
    pub open spec fn wf(self) -> bool {
        &&& forall|i: int|
            0 <= i < self.terminals@.len() ==> (#[trigger] self.terminals@[i]).wf()
        &&& forall|i: int|
            0 <= i < self.terminals@.len() ==> (#[trigger] self.terminals@[i]).id < self.next_id
        &&& forall|i: int, j: int|
            0 <= i < j < self.terminals@.len() ==> self.terminals@[i].id < self.terminals@[j].id
    }

    /// Whether a session with this id is registered.
    pub open spec fn has_id(self, id: TerminalId) -> bool {
        exists|i: int| 0 <= i < self.terminals@.len() && (#[trigger] self.terminals@[i]).id == id
    }

    pub fn new() -> (m: TerminalManager)
        ensures
            m.wf(),
            m.terminals@.len() == 0,
            m.next_id == 1,
    {
        TerminalManager { terminals: Vec::new(), next_id: 1 }
    }

    /// Register a fresh session and return its id: the current `next_id`,
    /// which then increases, so ids strictly increase across calls and a
    /// destroyed session's id can never be handed out again.
    pub fn create(&mut self, cols: u16, rows: u16, mode: TerminalMode) -> (id: TerminalId)
        requires
            old(self).wf(),
            cols >= 1,
            rows >= 1,
            old(self).next_id < TerminalId::MAX,
        ensures
            final(self).wf(),
            id == old(self).next_id,
            final(self).next_id == old(self).next_id + 1,
            !old(self).has_id(id),
            final(self).has_id(id),
            forall|x: TerminalId| old(self).has_id(x) ==> final(self).has_id(x),
            final(self).terminals@.len() == old(self).terminals@.len() + 1,
            final(self).terminals@.drop_last() == old(self).terminals@,
            final(self).terminals@.last().id == id,
            final(self).terminals@.last().cols == cols,
            final(self).terminals@.last().rows == rows,
            final(self).terminals@.last().mode == mode,
            final(self).terminals@.last().dirty,
            !final(self).terminals@.last().event_proxy.wakeup,
            final(self).terminals@.last().last_content is None,
    {
        let id = self.next_id;
        self.next_id = self.next_id + 1;
        let view = TerminalView::new(id, cols, rows, mode);
        self.terminals.push(view);
        proof {
            let vs_old = old(self).terminals@;
            let vs_new = self.terminals@;
            assert(vs_new.drop_last() =~= vs_old);
            assert(vs_new[vs_new.len() - 1].id == id);
            assert forall|x: TerminalId| old(self).has_id(x) implies self.has_id(x) by {
                let k = choose|k: int| 0 <= k < vs_old.len() && (#[trigger] vs_old[k]).id == x;
                assert(vs_new[k].id == x);
            }
        }
        id
    }

    /// Remove a session from the registry; reports whether it was there.
    /// `next_id` is untouched: the freed id is never reused.
    pub fn destroy(&mut self, id: TerminalId) -> (removed: bool)
        requires
            old(self).wf(),
        ensures
            final(self).wf(),
            removed == old(self).has_id(id),
            !final(self).has_id(id),
            final(self).next_id == old(self).next_id,
            forall|x: TerminalId|
                x != id ==> final(self).has_id(x) == old(self).has_id(x),
    {
        let n = self.terminals.len();
        let mut i: usize = 0;
        while i < n
            invariant
                old(self).wf(),
                n == self.terminals@.len(),
                i <= n,
                *self == *old(self),
                forall|j: int| 0 <= j < i ==> (#[trigger] self.terminals@[j]).id != id,
            decreases n - i,
        {
            if self.terminals[i].id == id {
                self.terminals.remove(i);
                proof {
                    let vs_old = old(self).terminals@;
                    let vs_new = self.terminals@;
                    let pos = i as int;
                    assert forall|k: int| 0 <= k < vs_new.len() implies (#[trigger] vs_new[k])
                        == (if k < pos { vs_old[k] } else { vs_old[k + 1] }) by {}
                    assert forall|p: int, q: int| 0 <= p < q < vs_new.len()
                        implies vs_new[p].id < vs_new[q].id by {
                        let p0 = if p < pos { p } else { p + 1 };
                        let q0 = if q < pos { q } else { q + 1 };
                        assert(vs_old[p0].id < vs_old[q0].id);
                    }
                    assert forall|x: TerminalId| x != id implies self.has_id(x)
                        == old(self).has_id(x) by {
                        if old(self).has_id(x) {
                            let k = choose|k: int|
                                0 <= k < vs_old.len() && (#[trigger] vs_old[k]).id == x;
                            if k < pos {
                                assert(vs_new[k].id == x);
                            } else {
                                assert(vs_new[k - 1].id == x);
                            }
                        }
                        if self.has_id(x) {
                            let k = choose|k: int|
                                0 <= k < vs_new.len() && (#[trigger] vs_new[k]).id == x;
                            if k < pos {
                                assert(vs_old[k].id == x);
                            } else {
                                assert(vs_old[k + 1].id == x);
                            }
                        }
                    }
                    assert(!self.has_id(id)) by {
                        if self.has_id(id) {
                            let k = choose|k: int|
                                0 <= k < vs_new.len() && (#[trigger] vs_new[k]).id == id;
                            if k < pos {
                                assert(vs_old[k].id == id);
                                assert(vs_old[k].id < vs_old[pos].id);
                            } else {
                                assert(vs_old[k + 1].id == id);
                                assert(vs_old[pos].id < vs_old[k + 1].id);
                            }
                        }
                    }
                }
                return true;
            }
            i = i + 1;
        }
        false
    }

    /// Look up a session by id. A stale id — one already destroyed — always
    /// yields `None`, never an unrelated session.
    pub fn get(&self, id: TerminalId) -> (r: Option<&TerminalView>)
        ensures
            r is Some <==> self.has_id(id),
            r matches Some(v) ==> v.id == id && exists|i: int|
                0 <= i < self.terminals@.len() && self.terminals@[i] == *v,
            self.wf() ==> (r matches Some(v) ==> v.wf()),
    {
        let n = self.terminals.len();
        let mut i: usize = 0;
        while i < n
            invariant
                n == self.terminals@.len(),
                i <= n,
                forall|j: int| 0 <= j < i ==> (#[trigger] self.terminals@[j]).id != id,
            decreases n - i,
        {
            if self.terminals[i].id == id {
                return Some(&self.terminals[i]);
            }
            i = i + 1;
        }
        None
    }

    /// Update every session's content and return the ids of those that
    /// changed, in registry order. This is the single per-frame entry point
    /// the renderer calls.
    pub fn update_all(&mut self) -> (changed: Vec<TerminalId>)
        requires
            old(self).wf(),
        ensures
            final(self).wf(),
            final(self).next_id == old(self).next_id,
            final(self).terminals@.len() == old(self).terminals@.len(),
            changed@ == spec_changed_ids(old(self).terminals@, 0),
            forall|i: int|
                0 <= i < final(self).terminals@.len() ==> {
                    let vo = #[trigger] old(self).terminals@[i];
                    let vn = final(self).terminals@[i];
                    &&& vn.id == vo.id
                    &&& vn.mode == vo.mode
                    &&& vn.cols == vo.cols
                    &&& vn.rows == vo.rows
                    &&& vn.term == vo.term
                    &&& !vn.event_proxy.wakeup
                    &&& !vn.dirty
                    &&& (!vo.needs_update() ==> vn.last_content == vo.last_content)
                    &&& (vo.needs_update() ==> (vn.last_content matches Some(c)
                        && c.cells@ == spec_content_cells(vn.term)))
                },
    {
        let mut changed: Vec<TerminalId> = Vec::new();
        let n = self.terminals.len();
        let mut i: usize = 0;
        while i < n
            invariant
                n == self.terminals@.len(),
                i <= n,
                old(self).wf(),
                self.next_id == old(self).next_id,
                self.terminals@.len() == old(self).terminals@.len(),
                forall|j: int| i <= j < n ==> self.terminals@[j] == old(self).terminals@[j],
                changed@ + spec_changed_ids(old(self).terminals@, i as int) == spec_changed_ids(
                    old(self).terminals@,
                    0,
                ),
                forall|j: int|
                    0 <= j < i ==> {
                        let vo = #[trigger] old(self).terminals@[j];
                        let vn = self.terminals@[j];
                        &&& vn.wf()
                        &&& vn.id == vo.id
                        &&& vn.mode == vo.mode
                        &&& vn.cols == vo.cols
                        &&& vn.rows == vo.rows
                        &&& vn.term == vo.term
                        &&& !vn.event_proxy.wakeup
                        &&& !vn.dirty
                        &&& (!vo.needs_update() ==> vn.last_content == vo.last_content)
                        &&& (vo.needs_update() ==> (vn.last_content matches Some(c)
                            && c.cells@ == spec_content_cells(vn.term)))
                    },
            decreases n - i,
        {
            let view = view_at_mut(&mut self.terminals, i);
            let view_changed = view.update_content();
            if view_changed {
                changed.push(view.id);
            }
            i = i + 1;
        }
        proof {
            assert forall|p: int, q: int| 0 <= p < q < self.terminals@.len()
                implies self.terminals@[p].id < self.terminals@[q].id by {
                assert(old(self).terminals@[p].id < old(self).terminals@[q].id);
            }
            assert forall|k: int| 0 <= k < self.terminals@.len()
                implies (#[trigger] self.terminals@[k]).wf()
                    && self.terminals@[k].id < self.next_id by {
                assert(old(self).terminals@[k].wf());
                assert(old(self).terminals@[k].id < old(self).next_id);
            }
        }
        changed
    }

    /// Feed one chunk of child output to the session with this id; reports
    /// whether the session exists. The application's control loop calls this
    /// with each chunk a reader thread handed over, in file order.
    pub fn process_output(&mut self, id: TerminalId, bytes: &[u8]) -> (found: bool)
        requires
            old(self).wf(),
        ensures
            final(self).wf(),
            found == old(self).has_id(id),
            final(self).next_id == old(self).next_id,
            final(self).terminals@.len() == old(self).terminals@.len(),
            forall|j: int|
                0 <= j < old(self).terminals@.len() && (#[trigger] old(self).terminals@[j]).id
                    != id ==> final(self).terminals@[j] == old(self).terminals@[j],
            forall|j: int|
                0 <= j < old(self).terminals@.len() && (#[trigger] old(self).terminals@[j]).id
                    == id ==> {
                    let vo = old(self).terminals@[j];
                    let vn = final(self).terminals@[j];
                    &&& vn.event_proxy.wakeup
                    &&& vn.id == vo.id
                    &&& vn.mode == vo.mode
                    &&& vn.cols == vo.cols
                    &&& vn.rows == vo.rows
                    &&& vn.dirty == vo.dirty
                    &&& vn.last_content == vo.last_content
                },
    {
        let n = self.terminals.len();
        let mut i: usize = 0;
        while i < n
            invariant
                old(self).wf(),
                n == self.terminals@.len(),
                i <= n,
                *self == *old(self),
                forall|j: int| 0 <= j < i ==> (#[trigger] self.terminals@[j]).id != id,
            decreases n - i,
        {
            if self.terminals[i].id == id {
                let view = view_at_mut(&mut self.terminals, i);
                view.process_output(bytes);
                proof {
                    assert forall|p: int, q: int| 0 <= p < q < self.terminals@.len()
                        implies self.terminals@[p].id < self.terminals@[q].id by {
                        assert(old(self).terminals@[p].id < old(self).terminals@[q].id);
                    }
                    assert forall|j: int|
                        0 <= j < old(self).terminals@.len()
                            && (#[trigger] old(self).terminals@[j]).id == id
                        implies j == i as int by {
                        if j != i as int {
                            if j < i as int {
                                assert(old(self).terminals@[j].id < old(self).terminals@[
                                    i as int].id);
                            } else {
                                assert(old(self).terminals@[i as int].id < old(
                                    self,
                                ).terminals@[j].id);
                            }
                        }
                    }
                }
                return true;
            }
            i = i + 1;
        }
        false
    }

    /// Resize the session with this id; reports whether it exists. The
    /// session's grid and dirty flag change together, so its next content
    /// update reports a change.
    pub fn resize(&mut self, id: TerminalId, cols: u16, rows: u16) -> (found: bool)
        requires
            old(self).wf(),
            cols >= 1,
            rows >= 1,
        ensures
            final(self).wf(),
            found == old(self).has_id(id),
            final(self).next_id == old(self).next_id,
            final(self).terminals@.len() == old(self).terminals@.len(),
            forall|j: int|
                0 <= j < old(self).terminals@.len() && (#[trigger] old(self).terminals@[j]).id
                    != id ==> final(self).terminals@[j] == old(self).terminals@[j],
            forall|j: int|
                0 <= j < old(self).terminals@.len() && (#[trigger] old(self).terminals@[j]).id
                    == id ==> {
                    let vo = old(self).terminals@[j];
                    let vn = final(self).terminals@[j];
                    &&& vn.cols == cols
                    &&& vn.rows == rows
                    &&& vn.dirty
                    &&& vn.id == vo.id
                    &&& vn.mode == vo.mode
                    &&& vn.event_proxy == vo.event_proxy
                    &&& vn.last_content == vo.last_content
                },
    {
        let n = self.terminals.len();
        let mut i: usize = 0;
        while i < n
            invariant
                old(self).wf(),
                cols >= 1,
                rows >= 1,
                n == self.terminals@.len(),
                i <= n,
                *self == *old(self),
                forall|j: int| 0 <= j < i ==> (#[trigger] self.terminals@[j]).id != id,
            decreases n - i,
        {
            if self.terminals[i].id == id {
                let view = view_at_mut(&mut self.terminals, i);
                view.resize(cols, rows);
                proof {
                    assert forall|p: int, q: int| 0 <= p < q < self.terminals@.len()
                        implies self.terminals@[p].id < self.terminals@[q].id by {
                        assert(old(self).terminals@[p].id < old(self).terminals@[q].id);
                    }
                    assert forall|j: int|
                        0 <= j < old(self).terminals@.len()
                            && (#[trigger] old(self).terminals@[j]).id == id
                        implies j == i as int by {
                        if j != i as int {
                            if j < i as int {
                                assert(old(self).terminals@[j].id < old(self).terminals@[
                                    i as int].id);
                            } else {
                                assert(old(self).terminals@[i as int].id < old(
                                    self,
                                ).terminals@[j].id);
                            }
                        }
                    }
                }
                return true;
            }
            i = i + 1;
        }
        false
    }

    /// All registered ids, in registry order.
    pub fn ids(&self) -> (r: Vec<TerminalId>)
        ensures
            r@.len() == self.terminals@.len(),
            forall|i: int| 0 <= i < r@.len() ==> r@[i] == self.terminals@[i].id,
    {
        let n = self.terminals.len();
        let mut r: Vec<TerminalId> = Vec::new();
        let mut i: usize = 0;
        while i < n
            invariant
                n == self.terminals@.len(),
                i <= n,
                r@.len() == i,
                forall|j: int| 0 <= j < i ==> r@[j] == self.terminals@[j].id,
            decreases n - i,
        {
            r.push(self.terminals[i].id);
            i = i + 1;
        }
        r
    }

    /// Number of active sessions.
    pub fn len(&self) -> (n: usize)
        ensures
            n == self.terminals@.len(),
    {
        self.terminals.len()
    }

    pub fn is_empty(&self) -> (e: bool)
        ensures
            e == (self.terminals@.len() == 0),
    {
        self.terminals.len() == 0
    }
}

/// A registered id is always below `next_id`; `create` hands out exactly
/// `next_id` and then increases it, and no call ever decreases it. Hence an
/// id observed in the registry — or destroyed from it — is never returned
/// by any later `create`: session ids strictly increase and are never
/// reused.
pub proof fn lemma_ids_never_reused(m: TerminalManager, id: TerminalId)
    requires
        m.wf(),
        m.has_id(id),
    ensures
        id < m.next_id,
{
}

impl Default for TerminalManager {
    fn default() -> (m: Self)
        ensures
            m.wf(),
            m.terminals@.len() == 0,
            m.next_id == 1,
    {
        TerminalManager::new()
    }
}

/// A mutable borrow of one registry slot.
fn view_at_mut(views: &mut Vec<TerminalView>, i: usize) -> (v: &mut TerminalView)
    requires
        i < old(views).len(),
    ensures
        *v == old(views)@[i as int],
        final(views)@ == old(views)@.update(i as int, *final(v)),
{
    &mut views[i]
}

} // verus!
