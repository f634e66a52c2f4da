//! What holds of the desktop whatever commands it is given.
use vstd::prelude::*;
use crate::dock::DockPosition;
use crate::geometry::{Frame, resized};
use crate::layout::{DockSelector, Layout, floored, growth, without};
use crate::layout::{lemma_resized_valid, lemma_with_window_valid, lemma_moved_valid};
use crate::layout::{lemma_toggled_valid, lemma_dock_resized_valid, lemma_selector_valid};
use crate::layout::{lemma_undocked_valid, lemma_without_contains, lemma_without_push};
use crate::layout::lemma_without_absent;
use crate::screen::ScreenMsg;
use crate::window::text_or_empty;

verus! {

/// The layout after the commands of `msgs`, applied in their order.
pub open spec fn run<H>(layout: Layout<H>, msgs: Seq<ScreenMsg<H>>) -> Layout<H>
    decreases msgs.len(),
{
    if msgs.len() == 0 {
        layout
    } else {
        msgs.last().applied(run(layout, msgs.drop_last()))
    }
}

/// The layout after the same dock resize, applied `times` times.
pub open spec fn dock_resized_repeatedly<H>(
    layout: Layout<H>,
    dock: DockPosition,
    dx: int,
    dy: int,
    times: nat,
) -> Layout<H>
    decreases times,
{
    if times == 0 {
        layout
    } else {
        dock_resized_repeatedly(layout, dock, dx, dy, (times - 1) as nat).dock_resized(dock, dx, dy)
    }
}

/// Every command keeps a valid desktop valid.
pub proof fn lemma_command_keeps_valid<H>(layout: Layout<H>, msg: ScreenMsg<H>)
    requires
        layout.valid(),
    ensures
        msg.applied(layout).valid(),
{
    match msg {
        ScreenMsg::Resize(width, height) => {
            lemma_resized_valid(layout, width as nat, height as nat);
        },
        ScreenMsg::NewWindow(init, content) => {
            lemma_with_window_valid(
                layout,
                text_or_empty(init.title),
                text_or_empty(init.icon),
                content,
                init.dock,
            );
        },
        ScreenMsg::MoveWindow(id, dock) => {
            lemma_moved_valid(layout, id, dock);
        },
        ScreenMsg::ToggleWindow(id) => {
            lemma_toggled_valid(layout, id);
        },
        ScreenMsg::ResizeDock(dock, dx, dy) => {
            lemma_dock_resized_valid(layout, dock, dx as int, dy as int);
        },
        ScreenMsg::OpenSelector(id, x, y) => {
            lemma_selector_valid(layout, id, x, y);
        },
        ScreenMsg::CloseSelector => {
            lemma_selector_valid(layout, 0, 0, 0);
        },
    }
}

/// Every sequence of commands keeps a valid desktop valid.
pub proof fn lemma_run_keeps_valid<H>(layout: Layout<H>, msgs: Seq<ScreenMsg<H>>)
    requires
        layout.valid(),
    ensures
        run(layout, msgs).valid(),
    decreases msgs.len(),
{
    if msgs.len() > 0 {
        lemma_run_keeps_valid(layout, msgs.drop_last());
        lemma_command_keeps_valid(run(layout, msgs.drop_last()), msgs.last());
    }
}

/// In a valid desktop a window stands in at most one dock stack, there at
/// most once, and in the stack of the dock it occupies and no other.
pub proof fn lemma_docking_exclusive<H>(layout: Layout<H>)
    requires
        layout.valid(),
    ensures
        forall|id: usize, one: DockPosition, other: DockPosition|
            layout.stack(one).contains(id) && layout.stack(other).contains(id) ==> one == other,
        forall|dock: DockPosition, i: int, j: int|
            0 <= i < layout.stack(dock).len() && 0 <= j < layout.stack(dock).len() && i != j
                ==> layout.stack(dock)[i] != layout.stack(dock)[j],
        forall|id: usize, dock: DockPosition|
            layout.stack(dock).contains(id) <==> layout.docked_at(id, dock),
{
    assert forall|dock: DockPosition, i: int, j: int|
        0 <= i < layout.stack(dock).len() && 0 <= j < layout.stack(dock).len() && i
            != j implies layout.stack(dock)[i] != layout.stack(dock)[j] by {
        assert(layout.stack(dock).no_duplicates());
    }
}

/// Docking exclusivity: after any sequence of commands on a valid desktop,
/// no window stands in two dock stacks or twice in one.
pub proof fn lemma_docking_exclusive_after_commands<H>(layout: Layout<H>, msgs: Seq<ScreenMsg<H>>)
    requires
        layout.valid(),
    ensures
        forall|id: usize, one: DockPosition, other: DockPosition|
            run(layout, msgs).stack(one).contains(id) && run(layout, msgs).stack(other).contains(id)
                ==> one == other,
        forall|dock: DockPosition| #[trigger] run(layout, msgs).stack(dock).no_duplicates(),
{
    lemma_run_keeps_valid(layout, msgs);
    lemma_docking_exclusive(run(layout, msgs));
}

/// A window is hidden exactly when no dock stack holds it.
pub proof fn lemma_hidden_iff_in_no_stack<H>(layout: Layout<H>, id: usize)
    requires
        layout.valid(),
        layout.knows(id),
    ensures
        layout.hidden(id) <==> forall|dock: DockPosition| !layout.stack(dock).contains(id),
{
    lemma_docking_exclusive(layout);
    if !layout.hidden(id) {
        let dock = layout.windows[id as int].current_dock.unwrap();
        assert(layout.docked_at(id, dock));
    }
}

/// A moved window is the topmost of the dock it was moved to.
pub proof fn lemma_moved_window_is_topmost<H>(layout: Layout<H>, id: usize, dock: DockPosition)
    requires
        layout.valid(),
        layout.knows(id),
    ensures
        layout.moved(id, dock).topmost(dock) == Some(id),
        layout.moved(id, dock).docked_at(id, dock),
        layout.moved(id, dock).selector.is_none(),
{
}

/// A window that is moved out of a dock remembers that dock; a hidden window
/// that is moved keeps what it remembered.
pub proof fn lemma_move_remembers_dock<H>(layout: Layout<H>, id: usize, dock: DockPosition)
    requires
        layout.valid(),
        layout.knows(id),
    ensures
        layout.moved(id, dock).windows[id as int].last_dock == (match layout.windows[id as int].current_dock {
            Some(from) => from,
            None => layout.windows[id as int].last_dock,
        }),
{
}

/// The stack of a dock after a window was moved to it: the stack as it was,
/// without the window, and then the window on top.
pub proof fn lemma_moved_stack<H>(layout: Layout<H>, id: usize, dock: DockPosition)
    requires
        layout.valid(),
        layout.knows(id),
    ensures
        layout.moved(id, dock).stack(dock) == without(layout.stack(dock), id).push(id),
{
    lemma_docking_exclusive(layout);
    match layout.windows[id as int].current_dock {
        Some(from) => {
            if from != dock {
                lemma_without_absent(layout.stack(dock), id);
            }
        },
        None => {
            lemma_without_absent(layout.stack(dock), id);
        },
    }
}

/// Center stack visibility: of two windows moved to the center one after
/// the other, the center shows the second; once the second is hidden or
/// moved to another dock, the center shows the first again.
pub proof fn lemma_center_shows_latest<H>(
    layout: Layout<H>,
    first: usize,
    second: usize,
    elsewhere: DockPosition,
)
    requires
        layout.valid(),
        layout.knows(first),
        layout.knows(second),
        first != second,
        elsewhere != DockPosition::Center,
    ensures
        ({
            let both = layout.moved(first, DockPosition::Center).moved(second, DockPosition::Center);
            &&& both.center_top() == Some(second)
            &&& both.docked_at(first, DockPosition::Center)
            &&& both.toggled(second).center_top() == Some(first)
            &&& both.moved(second, elsewhere).center_top() == Some(first)
        }),
{
    let center = DockPosition::Center;
    let one = layout.moved(first, center);
    lemma_moved_valid(layout, first, center);
    lemma_moved_stack(layout, first, center);
    let both = one.moved(second, center);
    lemma_moved_valid(one, second, center);
    lemma_moved_stack(one, second, center);
    let below = without(layout.stack(center), first);
    lemma_without_push(below, first, second);
    let rest = without(below, second).push(first);
    lemma_without_push(rest, second, second);
    lemma_without_push(without(below, second), first, second);
    lemma_docking_exclusive(one);
    assert(!rest.contains(second)) by {
        lemma_without_contains(below, second, second);
    }
    lemma_without_absent(rest, second);
    lemma_undocked_valid(both, second);
}

/// Toggle round trip: a docked window that is toggled twice occupies the
/// dock that it occupied before, as its topmost window.
pub proof fn lemma_toggle_twice_restores_dock<H>(layout: Layout<H>, id: usize, dock: DockPosition)
    requires
        layout.valid(),
        layout.docked_at(id, dock),
    ensures
        layout.toggled(id).hidden(id),
        layout.toggled(id).windows[id as int].last_dock == dock,
        layout.toggled(id).toggled(id).docked_at(id, dock),
        layout.toggled(id).toggled(id).topmost(dock) == Some(id),
{
}

/// A hidden window that is toggled twice is hidden again, and every stack
/// is as it was.
pub proof fn lemma_toggle_twice_keeps_hidden<H>(layout: Layout<H>, id: usize)
    requires
        layout.valid(),
        layout.hidden(id),
    ensures
        layout.toggled(id).toggled(id).hidden(id),
        layout.toggled(id).toggled(id).stacks == layout.stacks,
{
    let dock = layout.windows[id as int].last_dock;
    lemma_docking_exclusive(layout);
    lemma_without_push(layout.stack(dock), id, id);
    lemma_without_absent(layout.stack(dock), id);
}

/// Resize floor: however often a dock is resized, and by whatever drag, no
/// dock has a negative size.
pub proof fn lemma_dock_size_never_negative<H>(
    layout: Layout<H>,
    dock: DockPosition,
    dx: int,
    dy: int,
    times: nat,
    observed: DockPosition,
)
    requires
        layout.valid(),
        observed.is_edge(),
    ensures
        dock_resized_repeatedly(layout, dock, dx, dy, times).valid(),
        dock_resized_repeatedly(layout, dock, dx, dy, times).size(observed) >= 0,
    decreases times,
{
    if times > 0 {
        lemma_dock_size_never_negative(layout, dock, dx, dy, (times - 1) as nat, observed);
        lemma_dock_resized_valid(
            dock_resized_repeatedly(layout, dock, dx, dy, (times - 1) as nat),
            dock,
            dx,
            dy,
        );
    }
}

/// The size of a resized dock is the old size and the growth, or zero if
/// that is below zero; the other docks keep their sizes.
pub proof fn lemma_dock_resize_size<H>(
    layout: Layout<H>,
    dock: DockPosition,
    dx: int,
    dy: int,
    observed: DockPosition,
)
    requires
        layout.valid(),
        dock.is_edge(),
        observed.is_edge(),
    ensures
        layout.dock_resized(dock, dx, dy).size(observed) == if observed == dock {
            floored(layout.size(dock) + growth(dock, dx, dy))
        } else {
            layout.size(observed)
        },
{
}

/// Unknown id: a command that names a window that does not exist changes
/// nothing and does not succeed.
pub proof fn lemma_unknown_id_changes_nothing<H>(layout: Layout<H>, id: usize, dock: DockPosition, x: i32, y: i32)
    requires
        !layout.knows(id),
    ensures
        layout.moved(id, dock) == layout,
        layout.toggled(id) == layout,
        layout.selector_opened(id, x, y) == layout,
        !ScreenMsg::<H>::MoveWindow(id, dock).succeeds(layout),
        !ScreenMsg::<H>::ToggleWindow(id).succeeds(layout),
        !ScreenMsg::<H>::OpenSelector(id, x, y).succeeds(layout),
{
}

/// At most one placement menu: the menu that is open is the one opened
/// last, and closing leaves none.
pub proof fn lemma_one_selector<H>(layout: Layout<H>, one: usize, other: usize, x: i32, y: i32)
    requires
        layout.knows(one),
        layout.knows(other),
    ensures
        layout.selector_opened(one, 0, 0).selector_opened(other, x, y).selector == Some(
            DockSelector { window: other, x, y },
        ),
        layout.selector_opened(one, x, y).selector_closed().selector.is_none(),
{
}

/// A command changes the windows that exist only by adding one: no window
/// is removed, and ids stay.
pub proof fn lemma_windows_only_grow<H>(layout: Layout<H>, msg: ScreenMsg<H>)
    requires
        layout.valid(),
    ensures
        msg.applied(layout).windows.len() >= layout.windows.len(),
        forall|id: usize|
            layout.knows(id) ==> #[trigger] msg.applied(layout).knows(id) && msg.applied(
                layout,
            ).windows[id as int].title == layout.windows[id as int].title && msg.applied(
                layout,
            ).windows[id as int].icon == layout.windows[id as int].icon && msg.applied(
                layout,
            ).windows[id as int].content == layout.windows[id as int].content,
{
    match msg {
        ScreenMsg::MoveWindow(id, dock) => {
            lemma_moved_valid(layout, id, dock);
        },
        ScreenMsg::ToggleWindow(id) => {
            lemma_toggled_valid(layout, id);
        },
        _ => {},
    }
}

/// Resizing a dock is dragging its handle: the new size of an edge dock is
/// the extent that the resize of a rectangle gives, along the axis of the
/// dock, when the handle of the dock is dragged and the minimum is zero.
pub proof fn lemma_dock_resize_is_handle_drag<H>(
    layout: Layout<H>,
    dock: DockPosition,
    dx: int,
    dy: int,
    area: Frame,
)
    requires
        layout.valid(),
        dock.is_edge(),
        area.width == layout.size(dock),
        area.height == layout.size(dock),
    ensures
        ({
            let dragged = resized(area, dock.handle().unwrap(), dx, dy, 0, 0);
            let after = layout.dock_resized(dock, dx, dy).size(dock);
            if dock == DockPosition::Top || dock == DockPosition::Bottom {
                dragged.height == after && dragged.width == area.width
            } else {
                dragged.width == after && dragged.height == area.height
            }
        }),
{
}

/// A drag that does not grow a dock gives a size that can be stored,
/// whatever the dock holds: shrinking is always possible.
pub proof fn lemma_shrinking_always_fits<H>(layout: Layout<H>, dock: DockPosition, dx: int, dy: int)
    requires
        layout.valid(),
        layout.size(dock) <= i32::MAX || !dock.is_edge(),
        growth(dock, dx, dy) <= 0,
    ensures
        layout.resizable(dock, dx, dy),
{
}

} // verus!
