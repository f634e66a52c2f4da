//! The desktop: windows, docks, their sizes and the placement menu.
use vstd::prelude::*;
use crate::dock::DockPosition;
use crate::layout::{DockSelector, Layout, without, growth};
use crate::layout::{lemma_initial_valid, lemma_resized_valid, lemma_with_window_valid};
use crate::layout::{lemma_undocked_valid, lemma_docked_valid, lemma_moved_valid};
use crate::layout::{lemma_dock_resized_valid, lemma_selector_valid, lemma_without_push};
use crate::window::{Window, WindowInit, text_or_empty};
use crate::drop_zone::{dropped_id, read_drop};

verus! {

/// The desktop of one container. It owns its windows; a window's id is its
/// place in the order of creation.
pub struct Screen<H> {
    width: u32,
    height: u32,
    windows: Vec<Window<H>>,
    dock_stacks: Vec<Vec<usize>>,
    dock_sizes: [i32; 4],
    dock_selector: Option<DockSelector>,
}

impl<H> View for Screen<H> {
    type V = Layout<H>;

    closed spec fn view(&self) -> Layout<H> {
        Layout {
            width: self.width as nat,
            height: self.height as nat,
            windows: Seq::new(self.windows@.len(), |i: int| self.windows@[i]@),
            stacks: Seq::new(self.dock_stacks@.len(), |slot: int| self.dock_stacks@[slot]@),
            sizes: Seq::new(4, |slot: int| self.dock_sizes@[slot] as int),
            selector: self.dock_selector,
        }
    }
}

/// A command to the desktop.
pub enum ScreenMsg<H> {
    /// The container has this width and height now.
    Resize(u32, u32),
    /// Create a window from this description, drawn on this surface.
    NewWindow(WindowInit, H),
    /// Move the window to the dock.
    MoveWindow(usize, DockPosition),
    /// Hide the window if it is docked, show it if it is hidden.
    ToggleWindow(usize),
    /// The handle of the dock was dragged by `(dx, dy)`.
    ResizeDock(DockPosition, i64, i64),
    /// Open the placement menu for the window at the point `(x, y)`.
    OpenSelector(usize, i32, i32),
    /// Close the placement menu.
    CloseSelector,
}

impl<H> ScreenMsg<H> {
    /// The layout that the command makes of `layout`.
    pub open spec fn applied(self, layout: Layout<H>) -> Layout<H> {
        match self {
            ScreenMsg::Resize(width, height) => layout.resized(width as nat, height as nat),
            ScreenMsg::NewWindow(init, content) => layout.with_window(
                text_or_empty(init.title),
                text_or_empty(init.icon),
                content,
                init.dock,
            ),
            ScreenMsg::MoveWindow(id, dock) => layout.moved(id, dock),
            ScreenMsg::ToggleWindow(id) => layout.toggled(id),
            ScreenMsg::ResizeDock(dock, dx, dy) => layout.dock_resized(dock, dx as int, dy as int),
            ScreenMsg::OpenSelector(id, x, y) => layout.selector_opened(id, x, y),
            ScreenMsg::CloseSelector => layout.selector_closed(),
        }
    }

    /// The command names something that exists in `layout`: a window that
    /// is known, a dock that has a size.
    pub open spec fn succeeds(self, layout: Layout<H>) -> bool {
        match self {
            ScreenMsg::MoveWindow(id, _) => layout.knows(id),
            ScreenMsg::ToggleWindow(id) => layout.knows(id),
            ScreenMsg::OpenSelector(id, _, _) => layout.knows(id),
            ScreenMsg::ResizeDock(dock, _, _) => dock.is_edge(),
            _ => true,
        }
    }

    /// What the command gives can be stored.
    pub open spec fn fits(self, layout: Layout<H>) -> bool {
        match self {
            ScreenMsg::ResizeDock(dock, dx, dy) => layout.resizable(dock, dx as int, dy as int),
            _ => true,
        }
    }
}

/// The command that a drop on the zone of `dock` gives: to move the window
/// whose id the payload holds. A missing or malformed payload gives none.
pub fn drop_message<H>(payload: Option<&str>, dock: DockPosition) -> (msg: Option<ScreenMsg<H>>)
    ensures
        msg == (match dropped_id(payload) {
            Some(id) => Some(ScreenMsg::<H>::MoveWindow(id, dock)),
            None => None,
        }),
{
    match read_drop(payload) {
        Some(id) => Some(ScreenMsg::MoveWindow(id, dock)),
        None => None,
    }
}

/// The icon of one window in the taskbar. A click on it toggles the window,
/// and it can be dragged onto a dock.
#[derive(Clone, Copy, Debug, PartialEq, Eq, Structural)]
pub struct TaskbarIcon {
    pub id: usize,
    pub open: bool,
}

impl<H> Screen<H> {
    /// Each window carries its place as its id, and there is one stack for
    /// each dock.
    closed spec fn shaped(&self) -> bool {
        &&& self.dock_stacks@.len() == 5
        &&& forall|i: int| 0 <= i < self.windows@.len() ==> (#[trigger] self.windows@[i]).id == i
    }

    /// The desktop is in order: it stands for a valid layout.
    pub closed spec fn wf(&self) -> bool {
        self.shaped() && self@.valid()
    }

    /// A well-formed desktop stands for a valid layout.
    pub proof fn lemma_wf_is_valid(&self)
        requires
            self.wf(),
        ensures
            self@.valid(),
    {
    }

    /// The desktop of a container of the given extent, with no window.
    pub fn new(width: u32, height: u32) -> (screen: Screen<H>)
        ensures
            screen.wf(),
            screen@ == Layout::<H>::initial(width as nat, height as nat),
    {
        let mut dock_stacks: Vec<Vec<usize>> = Vec::new();
        let mut slot: usize = 0;
        while slot < 5
            invariant
                slot <= 5,
                dock_stacks@.len() == slot,
                forall|k: int| 0 <= k < slot ==> (#[trigger] dock_stacks@[k])@ == Seq::<usize>::empty(),
            decreases 5 - slot,
        {
            dock_stacks.push(Vec::new());
            slot = slot + 1;
        }
        let tenth_w: u32 = width / 10;
        let tenth_h: u32 = height / 10;
        let fifth_w: u32 = width / 5;
        let fifth_h: u32 = height / 5;
        let screen = Screen {
            width,
            height,
            windows: Vec::new(),
            dock_stacks,
            dock_sizes: [tenth_h as i32, tenth_w as i32, fifth_h as i32, fifth_w as i32],
            dock_selector: None,
        };
        proof {
            let start = Layout::<H>::initial(width as nat, height as nat);
            assert(screen@.windows =~= start.windows);
            assert(screen@.stacks =~= start.stacks);
            assert(screen@.sizes =~= start.sizes);
            lemma_initial_valid::<H>(width as nat, height as nat);
        }
        screen
    }

    /// The width of the container, as last reported.
    pub fn width(&self) -> (width: u32)
        ensures
            width == self@.width,
    {
        self.width
    }

    /// The height of the container, as last reported.
    pub fn height(&self) -> (height: u32)
        ensures
            height == self@.height,
    {
        self.height
    }

    /// The container has a new extent. Nothing else changes.
    pub fn resize(&mut self, width: u32, height: u32)
        requires
            old(self).wf(),
        ensures
            final(self).wf(),
            final(self)@ == old(self)@.resized(width as nat, height as nat),
    {
        self.width = width;
        self.height = height;
        proof {
            lemma_resized_valid(old(self)@, width as nat, height as nat);
        }
    }

    /// Creates a window from `init`, drawn on `content`, and returns its id:
    /// the number of windows that existed before. The window starts hidden.
    pub fn new_window(&mut self, init: WindowInit, content: H) -> (id: usize)
        requires
            old(self).wf(),
        ensures
            final(self).wf(),
            id == old(self)@.windows.len(),
            final(self)@ == old(self)@.with_window(
                text_or_empty(init.title),
                text_or_empty(init.icon),
                content,
                init.dock,
            ),
    {
        let id: usize = self.windows.len();
        let window = Window::new(id, init, content);
        self.windows.push(window);
        proof {
            let next = old(self)@.with_window(
                text_or_empty(init.title),
                text_or_empty(init.icon),
                content,
                init.dock,
            );
            assert(self@.windows =~= next.windows);
            lemma_with_window_valid(
                old(self)@,
                text_or_empty(init.title),
                text_or_empty(init.icon),
                content,
                init.dock,
            );
        }
        id
    }

    /// Takes the window out of the dock it occupies, if it occupies one.
    fn undock(&mut self, id: usize)
        requires
            old(self).wf(),
            old(self)@.knows(id),
        ensures
            final(self).wf(),
            final(self)@ == old(self)@.undocked(id),
    {
        match self.windows[id].current_dock {
            Some(dock) => {
                let slot: usize = dock.index();
                let kept = without_id(&self.dock_stacks[slot], id);
                self.dock_stacks[slot] = kept;
                self.windows[id].current_dock = None;
                self.windows[id].last_dock = dock;
                proof {
                    let next = old(self)@.undocked(id);
                    assert(self@.windows =~= next.windows);
                    assert(self@.stacks =~= next.stacks);
                    lemma_undocked_valid(old(self)@, id);
                }
            },
            None => {},
        }
    }

    /// Puts a hidden window on top of `dock`.
    fn dock(&mut self, id: usize, dock: DockPosition)
        requires
            old(self).wf(),
            old(self)@.hidden(id),
        ensures
            final(self).wf(),
            final(self)@ == old(self)@.docked(id, dock),
    {
        let slot: usize = dock.index();
        self.dock_stacks[slot].push(id);
        self.windows[id].current_dock = Some(dock);
        proof {
            let next = old(self)@.docked(id, dock);
            assert(self@.windows =~= next.windows);
            assert(self@.stacks =~= next.stacks);
            lemma_docked_valid(old(self)@, id, dock);
        }
    }

    /// Moves a window to `dock`, on top of the windows that are there, and
    /// closes the placement menu. The result says whether the window exists;
    /// if it does not, nothing changes.
    pub fn move_window(&mut self, id: usize, dock: DockPosition) -> (known: bool)
        requires
            old(self).wf(),
        ensures
            final(self).wf(),
            known == old(self)@.knows(id),
            final(self)@ == old(self)@.moved(id, dock),
    {
        if id >= self.windows.len() {
            return false;
        }
        self.undock(id);
        proof {
            lemma_undocked_valid(old(self)@, id);
        }
        self.dock(id, dock);
        self.dock_selector = None;
        proof {
            lemma_moved_valid(old(self)@, id, dock);
        }
        true
    }

    /// Hides a docked window, or shows a hidden one on top of the dock it
    /// last occupied. The result says whether the window exists; if it does
    /// not, nothing changes.
    pub fn toggle_window(&mut self, id: usize) -> (known: bool)
        requires
            old(self).wf(),
        ensures
            final(self).wf(),
            known == old(self)@.knows(id),
            final(self)@ == old(self)@.toggled(id),
    {
        if id >= self.windows.len() {
            return false;
        }
        if self.windows[id].current_dock.is_some() {
            self.undock(id);
        } else {
            let last: DockPosition = self.windows[id].last_dock;
            self.dock(id, last);
        }
        true
    }

    /// Whether `resize_dock` can store the size that this drag gives.
    pub fn can_resize_dock(&self, dock: DockPosition, dx: i64, dy: i64) -> (fits: bool)
        requires
            self.wf(),
        ensures
            fits == self@.resizable(dock, dx as int, dy as int),
    {
        match dock {
            DockPosition::Center => true,
            _ => {
                let size: i128 = self.dock_sizes[dock.index()] as i128;
                size + grown_by(dock, dx, dy) <= 2147483647
            },
        }
    }

    /// Resizes an edge dock by a drag of its handle: the top and left docks
    /// grow with the drag, the bottom and right docks against it, and no
    /// dock shrinks below zero. The result says whether the dock has a size;
    /// the center has none, and nothing changes for it.
    pub fn resize_dock(&mut self, dock: DockPosition, dx: i64, dy: i64) -> (sized: bool)
        requires
            old(self).wf(),
            old(self)@.resizable(dock, dx as int, dy as int),
        ensures
            final(self).wf(),
            sized == dock.is_edge(),
            final(self)@ == old(self)@.dock_resized(dock, dx as int, dy as int),
    {
        match dock {
            DockPosition::Center => false,
            _ => {
                let slot: usize = dock.index();
                let size: i128 = self.dock_sizes[slot] as i128;
                let wanted: i128 = size + grown_by(dock, dx, dy);
                let next: i32 = if wanted < 0 {
                    0
                } else {
                    wanted as i32
                };
                self.dock_sizes[slot] = next;
                proof {
                    let after = old(self)@.dock_resized(dock, dx as int, dy as int);
                    assert(self@.sizes =~= after.sizes);
                    lemma_dock_resized_valid(old(self)@, dock, dx as int, dy as int);
                }
                true
            },
        }
    }

    /// Opens the placement menu for a window at a screen point, in place of
    /// any that was open. The result says whether the window exists; if it
    /// does not, nothing changes.
    pub fn open_selector(&mut self, id: usize, x: i32, y: i32) -> (known: bool)
        requires
            old(self).wf(),
        ensures
            final(self).wf(),
            known == old(self)@.knows(id),
            final(self)@ == old(self)@.selector_opened(id, x, y),
    {
        if id >= self.windows.len() {
            return false;
        }
        self.dock_selector = Some(DockSelector { window: id, x, y });
        proof {
            lemma_selector_valid(old(self)@, id, x, y);
        }
        true
    }

    /// Closes the placement menu, if one is open.
    pub fn close_selector(&mut self)
        requires
            old(self).wf(),
        ensures
            final(self).wf(),
            final(self)@ == old(self)@.selector_closed(),
    {
        self.dock_selector = None;
        proof {
            lemma_selector_valid(old(self)@, 0, 0, 0);
        }
    }

    /// Whether the desktop can apply the command: a dock resize must give a
    /// size that can be stored; every other command can always be applied.
    pub fn can_apply(&self, msg: &ScreenMsg<H>) -> (fits: bool)
        requires
            self.wf(),
        ensures
            fits == msg.fits(self@),
    {
        match msg {
            ScreenMsg::ResizeDock(dock, dx, dy) => self.can_resize_dock(*dock, *dx, *dy),
            _ => true,
        }
    }

    /// Applies one command. The result says whether the command named
    /// something that exists; if it did not, nothing has changed.
    pub fn update(&mut self, msg: ScreenMsg<H>) -> (done: bool)
        requires
            old(self).wf(),
            msg.fits(old(self)@),
        ensures
            final(self).wf(),
            final(self)@ == msg.applied(old(self)@),
            done == msg.succeeds(old(self)@),
            !done ==> final(self)@ == old(self)@,
    {
        match msg {
            ScreenMsg::Resize(width, height) => {
                self.resize(width, height);
                true
            },
            ScreenMsg::NewWindow(init, content) => {
                let _ = self.new_window(init, content);
                true
            },
            ScreenMsg::MoveWindow(id, dock) => self.move_window(id, dock),
            ScreenMsg::ToggleWindow(id) => self.toggle_window(id),
            ScreenMsg::ResizeDock(dock, dx, dy) => self.resize_dock(dock, dx, dy),
            ScreenMsg::OpenSelector(id, x, y) => self.open_selector(id, x, y),
            ScreenMsg::CloseSelector => {
                self.close_selector();
                true
            },
        }
    }

    /// Handles a drop on the zone of `dock`: a payload that is an id moves
    /// that window there; a missing or malformed payload is ignored. The
    /// result says whether a window was moved.
    pub fn handle_drop(&mut self, payload: Option<&str>, dock: DockPosition) -> (moved: bool)
        requires
            old(self).wf(),
        ensures
            final(self).wf(),
            final(self)@ == (match dropped_id(payload) {
                Some(id) => old(self)@.moved(id, dock),
                None => old(self)@,
            }),
            moved == (match dropped_id(payload) {
                Some(id) => old(self)@.knows(id),
                None => false,
            }),
    {
        match read_drop(payload) {
            Some(id) => self.move_window(id, dock),
            None => false,
        }
    }

    /// The number of windows, which is also the id of the next one.
    pub fn window_count(&self) -> (count: usize)
        ensures
            count == self@.windows.len(),
    {
        self.windows.len()
    }

    /// The window with the given id, if it exists.
    pub fn window(&self, id: usize) -> (found: Option<&Window<H>>)
        requires
            self.wf(),
        ensures
            found.is_some() == self@.knows(id),
            found.is_some() ==> found.unwrap().id == id && found.unwrap()@ == self@.windows[id as int],
    {
        if id < self.windows.len() {
            Some(&self.windows[id])
        } else {
            None
        }
    }

    /// The surface that the window with the given id is drawn on, if the
    /// window exists.
    pub fn get_window(&self, id: usize) -> (found: Option<&H>)
        requires
            self.wf(),
        ensures
            found.is_some() == self@.knows(id),
            found.is_some() ==> *found.unwrap() == self@.windows[id as int].content,
    {
        if id < self.windows.len() {
            Some(&self.windows[id].content)
        } else {
            None
        }
    }

    /// Whether the window exists and occupies a dock.
    pub fn is_open(&self, id: usize) -> (open: bool)
        requires
            self.wf(),
        ensures
            open == (self@.knows(id) && self@.windows[id as int].current_dock.is_some()),
    {
        id < self.windows.len() && self.windows[id].current_dock.is_some()
    }

    /// The ids docked at `dock`, the topmost last.
    pub fn dock_stack(&self, dock: DockPosition) -> (stack: &Vec<usize>)
        requires
            self.wf(),
        ensures
            stack@ == self@.stack(dock),
    {
        &self.dock_stacks[dock.index()]
    }

    /// Whether the dock holds a window. An empty edge dock shows no content
    /// and no resize handle, only a place to drop a window.
    pub fn dock_visible(&self, dock: DockPosition) -> (visible: bool)
        requires
            self.wf(),
        ensures
            visible == self@.occupied(dock),
    {
        self.dock_stacks[dock.index()].len() > 0
    }

    /// The window that the center shows: the topmost of its stack. The
    /// windows below it stay docked and are not drawn.
    pub fn center_window(&self) -> (top: Option<usize>)
        requires
            self.wf(),
        ensures
            top == self@.center_top(),
    {
        let stack = &self.dock_stacks[DockPosition::Center.index()];
        let count: usize = stack.len();
        if count == 0 {
            None
        } else {
            Some(stack[count - 1])
        }
    }

    /// The size of an edge dock. The center has none.
    pub fn dock_size(&self, dock: DockPosition) -> (size: Option<i32>)
        requires
            self.wf(),
        ensures
            size.is_some() == dock.is_edge(),
            size.is_some() ==> size.unwrap() == self@.size(dock) && size.unwrap() >= 0,
    {
        match dock {
            DockPosition::Center => None,
            _ => {
                proof {
                    assert(self@.size(dock) >= 0);
                }
                Some(self.dock_sizes[dock.index()])
            },
        }
    }

    /// The extents at which the four edge docks are drawn, in the order of
    /// their slots: the size of a dock that holds a window, zero for an
    /// empty one.
    pub fn visible_dock_sizes(&self) -> (sizes: [i32; 4])
        requires
            self.wf(),
        ensures
            forall|dock: DockPosition|
                dock.is_edge() ==> sizes@[dock.slot()] == #[trigger] self@.shown_size(dock),
    {
        let top: i32 = self.shown(DockPosition::Top);
        let left: i32 = self.shown(DockPosition::Left);
        let bottom: i32 = self.shown(DockPosition::Bottom);
        let right: i32 = self.shown(DockPosition::Right);
        [top, left, bottom, right]
    }

    fn shown(&self, dock: DockPosition) -> (size: i32)
        requires
            self.wf(),
            dock.is_edge(),
        ensures
            size == self@.shown_size(dock),
    {
        let slot: usize = dock.index();
        if self.dock_stacks[slot].len() > 0 {
            self.dock_sizes[slot]
        } else {
            0
        }
    }

    /// The placement menu, if one is open.
    pub fn selector(&self) -> (open: Option<DockSelector>)
        ensures
            open == self@.selector,
    {
        self.dock_selector
    }

    /// The taskbar: one icon for each window, docked or hidden, in the
    /// order of the ids, each marked with whether its window is docked.
    pub fn taskbar(&self) -> (icons: Vec<TaskbarIcon>)
        requires
            self.wf(),
        ensures
            icons@.len() == self@.windows.len(),
            forall|i: int|
                0 <= i < icons@.len() ==> (#[trigger] icons@[i]).id == i && icons@[i].open
                    == self@.windows[i].current_dock.is_some(),
    {
        let mut icons: Vec<TaskbarIcon> = Vec::new();
        let mut id: usize = 0;
        while id < self.windows.len()
            invariant
                id <= self.windows@.len(),
                icons@.len() == id,
                forall|i: int|
                    0 <= i < id ==> (#[trigger] icons@[i]).id == i && icons@[i].open
                        == self.windows@[i].current_dock.is_some(),
            decreases self.windows@.len() - id,
        {
            icons.push(TaskbarIcon { id, open: self.windows[id].current_dock.is_some() });
            id = id + 1;
        }
        icons
    }
}

/// The ids of `stack` but `id`, in their order.
fn without_id(stack: &Vec<usize>, id: usize) -> (kept: Vec<usize>)
    ensures
        kept@ == without(stack@, id),
{
    let mut kept: Vec<usize> = Vec::new();
    let mut i: usize = 0;
    while i < stack.len()
        invariant
            i <= stack@.len(),
            kept@ == without(stack@.take(i as int), id),
        decreases stack@.len() - i,
    {
        let entry: usize = stack[i];
        proof {
            assert(stack@.take(i + 1) =~= stack@.take(i as int).push(entry));
            lemma_without_push(stack@.take(i as int), entry, id);
        }
        if entry != id {
            kept.push(entry);
        }
        i = i + 1;
    }
    proof {
        assert(stack@.take(stack@.len() as int) =~= stack@);
    }
    kept
}

/// By how much a drag grows a dock: see `growth`.
fn grown_by(dock: DockPosition, dx: i64, dy: i64) -> (by: i128)
    ensures
        by == growth(dock, dx as int, dy as int),
{
    match dock {
        DockPosition::Top => dy as i128,
        DockPosition::Left => dx as i128,
        DockPosition::Bottom => -(dy as i128),
        DockPosition::Right => -(dx as i128),
        DockPosition::Center => 0,
    }
}

} // verus!
