//! The dock layout as a mathematical state machine.
//!
//! A `Layout` is what a `Screen` stands for: the windows in the order of
//! their ids, one stack of window ids per dock, the sizes of the four edge
//! docks and the placement menu, if one is open. Every command of the screen
//! is a function from one layout to the next, and the laws of the layout are
//! proved of these functions.
use vstd::prelude::*;
use crate::dock::DockPosition;

verus! {

/// What is known of one window: its display data, the surface it is drawn
/// on, the dock it occupies (`None` while it is hidden) and the dock it
/// returns to when it is shown again.
pub struct WindowState<H> {
    pub title: Seq<char>,
    pub icon: Seq<char>,
    pub content: H,
    pub current_dock: Option<DockPosition>,
    pub last_dock: DockPosition,
}

/// An open placement menu: the window it places and the screen point it is
/// anchored at.
#[derive(Clone, Copy, Debug, PartialEq, Eq, Structural)]
pub struct DockSelector {
    pub window: usize,
    pub x: i32,
    pub y: i32,
}

/// The state of the desktop. A window's id is its index in `windows`.
pub struct Layout<H> {
    pub width: nat,
    pub height: nat,
    pub windows: Seq<WindowState<H>>,
    pub stacks: Seq<Seq<usize>>,
    pub sizes: Seq<int>,
    pub selector: Option<DockSelector>,
}

/// The stack without `id`, the others in their order.
pub open spec fn without(stack: Seq<usize>, id: usize) -> Seq<usize>
    decreases stack.len(),
{
    if stack.len() == 0 {
        stack
    } else if stack.last() == id {
        without(stack.drop_last(), id)
    } else {
        without(stack.drop_last(), id).push(stack.last())
    }
}

/// The larger of `size` and zero.
pub open spec fn floored(size: int) -> int {
    if size < 0 {
        0
    } else {
        size
    }
}

/// By how much a drag of `(dx, dy)` on the handle of `dock` grows it. The
/// handles of the top and left docks move with the drag; those of the bottom
/// and right docks sit on the opposite side and move against it.
pub open spec fn growth(dock: DockPosition, dx: int, dy: int) -> int {
    match dock {
        DockPosition::Top => dy,
        DockPosition::Left => dx,
        DockPosition::Bottom => -dy,
        DockPosition::Right => -dx,
        DockPosition::Center => 0,
    }
}

impl<H> Layout<H> {
    /// A window with this id exists.
    pub open spec fn knows(self, id: usize) -> bool {
        id < self.windows.len()
    }

    /// The ids docked at `dock`, the oldest first and the topmost last.
    pub open spec fn stack(self, dock: DockPosition) -> Seq<usize> {
        self.stacks[dock.slot()]
    }

    /// The size of an edge dock.
    pub open spec fn size(self, dock: DockPosition) -> int {
        self.sizes[dock.slot()]
    }

    /// The window exists and occupies `dock`.
    pub open spec fn docked_at(self, id: usize, dock: DockPosition) -> bool {
        self.knows(id) && self.windows[id as int].current_dock == Some(dock)
    }

    /// The window exists and is hidden.
    pub open spec fn hidden(self, id: usize) -> bool {
        self.knows(id) && self.windows[id as int].current_dock.is_none()
    }

    /// The invariant of the desktop: a stack holds exactly the windows that
    /// occupy its dock, each once; no dock has a negative size; the
    /// placement menu, if open, places a window that exists.
    pub open spec fn valid(self) -> bool {
        &&& self.stacks.len() == 5
        &&& self.sizes.len() == 4
        &&& forall|dock: DockPosition| dock.is_edge() ==> #[trigger] self.size(dock) >= 0
        &&& forall|dock: DockPosition, k: int|
            0 <= k < self.stack(dock).len() ==> self.docked_at(#[trigger] self.stack(dock)[k], dock)
        &&& forall|dock: DockPosition| #[trigger] self.stack(dock).no_duplicates()
        &&& forall|id: usize, dock: DockPosition| #[trigger]
            self.docked_at(id, dock) ==> self.stack(dock).contains(id)
        &&& self.selector.is_some() ==> self.knows(self.selector.unwrap().window)
    }

    /// The topmost window of `dock`, if the dock holds any.
    pub open spec fn topmost(self, dock: DockPosition) -> Option<usize> {
        if self.stack(dock).len() == 0 {
            None
        } else {
            Some(self.stack(dock).last())
        }
    }

    /// The window that the center shows: the topmost of its stack.
    pub open spec fn center_top(self) -> Option<usize> {
        self.topmost(DockPosition::Center)
    }

    /// The dock shows content: it holds at least one window.
    pub open spec fn occupied(self, dock: DockPosition) -> bool {
        self.stack(dock).len() > 0
    }

    /// The extent at which an edge dock is drawn: its size while it holds a
    /// window, zero while it is empty.
    pub open spec fn shown_size(self, dock: DockPosition) -> int {
        if self.occupied(dock) {
            self.size(dock)
        } else {
            0
        }
    }

    /// The desktop of a container of the given extent, with no window: the
    /// top and left docks take a tenth of it, the bottom and right docks a
    /// fifth.
    pub open spec fn initial(width: nat, height: nat) -> Layout<H> {
        Layout {
            width,
            height,
            windows: Seq::empty(),
            stacks: Seq::new(5, |slot: int| Seq::empty()),
            sizes: seq![height as int / 10, width as int / 10, height as int / 5, width as int / 5],
            selector: None,
        }
    }

    /// The container has a new extent.
    pub open spec fn resized(self, width: nat, height: nat) -> Layout<H> {
        Layout { width, height, ..self }
    }

    /// One more window, hidden, which a later show puts into `dock`.
    pub open spec fn with_window(
        self,
        title: Seq<char>,
        icon: Seq<char>,
        content: H,
        dock: DockPosition,
    ) -> Layout<H> {
        Layout {
            windows: self.windows.push(
                WindowState { title, icon, content, current_dock: None, last_dock: dock },
            ),
            ..self
        }
    }

    /// The window leaves the dock it occupies and remembers it. A hidden
    /// window stays as it is.
    pub open spec fn undocked(self, id: usize) -> Layout<H>
        recommends
            self.knows(id),
    {
        match self.windows[id as int].current_dock {
            Some(dock) => Layout {
                windows: self.windows.update(
                    id as int,
                    WindowState { current_dock: None, last_dock: dock, ..self.windows[id as int] },
                ),
                stacks: self.stacks.update(dock.slot(), without(self.stack(dock), id)),
                ..self
            },
            None => self,
        }
    }

    /// The window goes on top of the stack of `dock`.
    pub open spec fn docked(self, id: usize, dock: DockPosition) -> Layout<H>
        recommends
            self.hidden(id),
    {
        Layout {
            windows: self.windows.update(
                id as int,
                WindowState { current_dock: Some(dock), ..self.windows[id as int] },
            ),
            stacks: self.stacks.update(dock.slot(), self.stack(dock).push(id)),
            ..self
        }
    }

    /// The window moves to `dock` and becomes its topmost, and the placement
    /// menu closes. An unknown id changes nothing.
    pub open spec fn moved(self, id: usize, dock: DockPosition) -> Layout<H> {
        if self.knows(id) {
            Layout { selector: None, ..self.undocked(id).docked(id, dock) }
        } else {
            self
        }
    }

    /// A docked window is hidden; a hidden window returns to the top of the
    /// dock it last occupied. An unknown id changes nothing.
    pub open spec fn toggled(self, id: usize) -> Layout<H> {
        if !self.knows(id) {
            self
        } else if self.windows[id as int].current_dock.is_some() {
            self.undocked(id)
        } else {
            self.docked(id, self.windows[id as int].last_dock)
        }
    }

    /// An edge dock grows by what the drag gives, but not below zero. The
    /// center has no size and stays as it is.
    pub open spec fn dock_resized(self, dock: DockPosition, dx: int, dy: int) -> Layout<H> {
        if dock.is_edge() {
            Layout {
                sizes: self.sizes.update(
                    dock.slot(),
                    floored(self.size(dock) + growth(dock, dx, dy)),
                ),
                ..self
            }
        } else {
            self
        }
    }

    /// The size that this drag gives to the dock can be stored.
    pub open spec fn resizable(self, dock: DockPosition, dx: int, dy: int) -> bool {
        dock.is_edge() ==> self.size(dock) + growth(dock, dx, dy) <= i32::MAX
    }

    /// The placement menu opens for a window, in place of any that was open.
    /// An unknown id changes nothing.
    pub open spec fn selector_opened(self, id: usize, x: i32, y: i32) -> Layout<H> {
        if self.knows(id) {
            Layout { selector: Some(DockSelector { window: id, x, y }), ..self }
        } else {
            self
        }
    }

    /// The placement menu closes.
    pub open spec fn selector_closed(self) -> Layout<H> {
        Layout { selector: None, ..self }
    }
}

/// What `without` keeps: every id of the stack but the one removed.
pub proof fn lemma_without_contains(stack: Seq<usize>, id: usize, other: usize)
    ensures
        without(stack, id).contains(other) <==> (stack.contains(other) && other != id),
    decreases stack.len(),
{
    if stack.len() > 0 {
        let front = stack.drop_last();
        lemma_without_contains(front, id, other);
        if stack.contains(other) {
            let k = choose|k: int| 0 <= k < stack.len() && stack[k] == other;
            if k < stack.len() - 1 {
                assert(front[k] == other);
            }
        }
        if stack.last() != id {
            let rest = without(front, id);
            assert(rest.push(stack.last())[rest.len() as int] == stack.last());
            if rest.contains(other) {
                let k = choose|k: int| 0 <= k < rest.len() && rest[k] == other;
                assert(rest.push(stack.last())[k] == other);
            }
        }
    }
}

/// `without` keeps a stack free of repetitions.
pub proof fn lemma_without_no_duplicates(stack: Seq<usize>, id: usize)
    requires
        stack.no_duplicates(),
    ensures
        without(stack, id).no_duplicates(),
    decreases stack.len(),
{
    if stack.len() > 0 {
        lemma_without_no_duplicates(stack.drop_last(), id);
        lemma_without_contains(stack.drop_last(), id, stack.last());
    }
}

/// Removing an id that the stack does not hold changes nothing.
pub proof fn lemma_without_absent(stack: Seq<usize>, id: usize)
    requires
        !stack.contains(id),
    ensures
        without(stack, id) == stack,
    decreases stack.len(),
{
    if stack.len() > 0 {
        lemma_without_absent(stack.drop_last(), id);
    }
}

/// Removing from a stack with one more id on top: the top goes if it is the
/// id removed, and stays on top if it is not.
pub proof fn lemma_without_push(stack: Seq<usize>, top: usize, id: usize)
    ensures
        without(stack.push(top), id) == if top == id {
            without(stack, id)
        } else {
            without(stack, id).push(top)
        },
{
    assert(stack.push(top).drop_last() =~= stack);
}

/// Validity rests on the stacks, the sizes, the docks that the windows
/// occupy and the placement menu alone: a layout that agrees in these with a
/// valid one, but for windows that are new and hidden, is valid.
pub proof fn lemma_valid_carries_over<H>(before: Layout<H>, after: Layout<H>)
    requires
        before.valid(),
        after.stacks == before.stacks,
        after.sizes.len() == 4,
        forall|dock: DockPosition| dock.is_edge() ==> #[trigger] after.size(dock) >= 0,
        after.windows.len() >= before.windows.len(),
        forall|id: usize|
            before.knows(id) ==> (#[trigger] after.windows[id as int]).current_dock
                == before.windows[id as int].current_dock,
        forall|id: usize|
            after.knows(id) && !before.knows(id) ==> (#[trigger] after.windows[id as int]).current_dock
                is None,
        after.selector.is_some() ==> after.knows(after.selector.unwrap().window),
    ensures
        after.valid(),
{
    assert forall|dock: DockPosition| #[trigger] after.stack(dock).no_duplicates() by {
        assert(before.stack(dock).no_duplicates());
    }
    assert forall|dock: DockPosition, k: int| 0 <= k < after.stack(dock).len() implies after.docked_at(
        #[trigger] after.stack(dock)[k],
        dock,
    ) by {
        assert(before.docked_at(before.stack(dock)[k], dock));
    }
    assert forall|id: usize, dock: DockPosition| #[trigger] after.docked_at(id, dock) implies after.stack(
        dock,
    ).contains(id) by {
        assert(before.docked_at(id, dock));
    }
}

/// The empty desktop is valid.
pub proof fn lemma_initial_valid<H>(width: nat, height: nat)
    ensures
        Layout::<H>::initial(width, height).valid(),
{
}

/// A new extent of the container keeps the desktop valid.
pub proof fn lemma_resized_valid<H>(layout: Layout<H>, width: nat, height: nat)
    requires
        layout.valid(),
    ensures
        layout.resized(width, height).valid(),
{
    assert forall|dock: DockPosition| dock.is_edge() implies #[trigger] layout.resized(
        width,
        height,
    ).size(dock) >= 0 by {
        assert(layout.size(dock) >= 0);
    }
    lemma_valid_carries_over(layout, layout.resized(width, height));
}

/// A new window keeps the desktop valid: it is hidden, and the others stay
/// where they are.
pub proof fn lemma_with_window_valid<H>(
    layout: Layout<H>,
    title: Seq<char>,
    icon: Seq<char>,
    content: H,
    dock: DockPosition,
)
    requires
        layout.valid(),
    ensures
        layout.with_window(title, icon, content, dock).valid(),
{
    let next = layout.with_window(title, icon, content, dock);
    assert forall|at: DockPosition| at.is_edge() implies #[trigger] next.size(at) >= 0 by {
        assert(layout.size(at) >= 0);
    }
    lemma_valid_carries_over(layout, next);
}

/// Taking a window out of its dock keeps the desktop valid and leaves the
/// window hidden.
pub proof fn lemma_undocked_valid<H>(layout: Layout<H>, id: usize)
    requires
        layout.valid(),
        layout.knows(id),
    ensures
        layout.undocked(id).valid(),
        layout.undocked(id).hidden(id),
        layout.undocked(id).windows.len() == layout.windows.len(),
{
    let next = layout.undocked(id);
    match layout.windows[id as int].current_dock {
        Some(from) => {
            assert forall|dock: DockPosition| #[trigger] next.stack(dock).no_duplicates() by {
                assert(layout.stack(dock).no_duplicates());
                if dock == from {
                    lemma_without_no_duplicates(layout.stack(from), id);
                }
            }
            assert forall|dock: DockPosition, k: int|
                0 <= k < next.stack(dock).len() implies next.docked_at(
                #[trigger] next.stack(dock)[k],
                dock,
            ) by {
                if dock == from {
                    lemma_without_contains(layout.stack(from), id, next.stack(dock)[k]);
                } else {
                    assert(layout.docked_at(layout.stack(dock)[k], dock));
                }
            }
            assert forall|other: usize, dock: DockPosition| #[trigger]
                next.docked_at(other, dock) implies next.stack(dock).contains(other) by {
                assert(layout.docked_at(other, dock));
                if dock == from {
                    lemma_without_contains(layout.stack(from), id, other);
                }
            }
            assert forall|dock: DockPosition| dock.is_edge() implies #[trigger] next.size(dock)
                >= 0 by {
                assert(layout.size(dock) >= 0);
            }
        },
        None => {},
    }
}

/// Putting a hidden window on top of a dock keeps the desktop valid.
pub proof fn lemma_docked_valid<H>(layout: Layout<H>, id: usize, dock: DockPosition)
    requires
        layout.valid(),
        layout.hidden(id),
    ensures
        layout.docked(id, dock).valid(),
        layout.docked(id, dock).docked_at(id, dock),
        layout.docked(id, dock).windows.len() == layout.windows.len(),
{
    let next = layout.docked(id, dock);
    let grown = layout.stack(dock).push(id);
    assert forall|at: DockPosition, k: int| 0 <= k < next.stack(at).len() implies next.docked_at(
        #[trigger] next.stack(at)[k],
        at,
    ) by {
        if at != dock || k < layout.stack(dock).len() {
            assert(layout.docked_at(layout.stack(at)[k], at));
        }
    }
    assert forall|at: DockPosition| #[trigger] next.stack(at).no_duplicates() by {
        assert(layout.stack(at).no_duplicates());
    }
    assert forall|other: usize, at: DockPosition| #[trigger] next.docked_at(other, at) implies next.stack(
        at,
    ).contains(other) by {
        if other == id {
            assert(grown[layout.stack(dock).len() as int] == id);
        } else {
            assert(layout.docked_at(other, at));
            let k = choose|k: int| 0 <= k < layout.stack(at).len() && layout.stack(at)[k] == other;
            assert(next.stack(at)[k] == other);
        }
    }
    assert forall|at: DockPosition| at.is_edge() implies #[trigger] next.size(at) >= 0 by {
        assert(layout.size(at) >= 0);
    }
}

/// Moving a window keeps the desktop valid.
pub proof fn lemma_moved_valid<H>(layout: Layout<H>, id: usize, dock: DockPosition)
    requires
        layout.valid(),
    ensures
        layout.moved(id, dock).valid(),
        layout.moved(id, dock).windows.len() == layout.windows.len(),
{
    if layout.knows(id) {
        lemma_undocked_valid(layout, id);
        lemma_docked_valid(layout.undocked(id), id, dock);
        let placed = layout.undocked(id).docked(id, dock);
        assert forall|at: DockPosition| at.is_edge() implies #[trigger] layout.moved(id, dock).size(
            at,
        ) >= 0 by {
            assert(placed.size(at) >= 0);
        }
        lemma_valid_carries_over(placed, layout.moved(id, dock));
    }
}

/// Toggling a window keeps the desktop valid.
pub proof fn lemma_toggled_valid<H>(layout: Layout<H>, id: usize)
    requires
        layout.valid(),
    ensures
        layout.toggled(id).valid(),
        layout.toggled(id).windows.len() == layout.windows.len(),
{
    if layout.knows(id) {
        if layout.windows[id as int].current_dock.is_some() {
            lemma_undocked_valid(layout, id);
        } else {
            lemma_docked_valid(layout, id, layout.windows[id as int].last_dock);
        }
    }
}

/// Resizing a dock keeps the desktop valid: no size falls below zero.
pub proof fn lemma_dock_resized_valid<H>(layout: Layout<H>, dock: DockPosition, dx: int, dy: int)
    requires
        layout.valid(),
    ensures
        layout.dock_resized(dock, dx, dy).valid(),
{
    let next = layout.dock_resized(dock, dx, dy);
    assert forall|at: DockPosition| at.is_edge() implies #[trigger] next.size(at) >= 0 by {
        assert(layout.size(at) >= 0);
    }
    lemma_valid_carries_over(layout, next);
}

/// Opening or closing the placement menu keeps the desktop valid.
pub proof fn lemma_selector_valid<H>(layout: Layout<H>, id: usize, x: i32, y: i32)
    requires
        layout.valid(),
    ensures
        layout.selector_opened(id, x, y).valid(),
        layout.selector_closed().valid(),
{
    let opened = layout.selector_opened(id, x, y);
    let closed = layout.selector_closed();
    assert forall|at: DockPosition| at.is_edge() implies #[trigger] opened.size(at) >= 0 by {
        assert(layout.size(at) >= 0);
    }
    assert forall|at: DockPosition| at.is_edge() implies #[trigger] closed.size(at) >= 0 by {
        assert(layout.size(at) >= 0);
    }
    lemma_valid_carries_over(layout, opened);
    lemma_valid_carries_over(layout, closed);
}

} // verus!
