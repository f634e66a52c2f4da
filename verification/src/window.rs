//! One managed panel and the data it is created from.
use vstd::prelude::*;
use crate::dock::DockPosition;
use crate::layout::WindowState;

verus! {

/// What a host gives to create a window. A missing title or icon is taken
/// as empty. `dock` is where the window goes when it is first shown.
/// `request_center` is the host's wish for the center; the layout does not
/// act on it, since a window starts hidden.
pub struct WindowInit {
    pub title: Option<String>,
    pub icon: Option<String>,
    pub dock: DockPosition,
    pub request_center: Option<bool>,
}

/// The text that an optional string stands for: empty if it is missing.
pub open spec fn text_or_empty(text: Option<String>) -> Seq<char> {
    match text {
        Some(given) => given@,
        None => Seq::empty(),
    }
}

/// One window of the desktop. `content` is the surface that the window is
/// drawn on; the layout holds it and never looks inside.
pub struct Window<H> {
    pub id: usize,
    pub title: String,
    pub icon: String,
    pub content: H,
    pub current_dock: Option<DockPosition>,
    pub last_dock: DockPosition,
}

impl<H> View for Window<H> {
    type V = WindowState<H>;

    open spec fn view(&self) -> WindowState<H> {
        WindowState {
            title: self.title@,
            icon: self.icon@,
            content: self.content,
            current_dock: self.current_dock,
            last_dock: self.last_dock,
        }
    }
}

fn text_of(text: Option<String>) -> (out: String)
    ensures
        out@ == text_or_empty(text),
{
    match text {
        Some(given) => given,
        None => String::new(),
    }
}

impl<H> Window<H> {
    /// The window with the given id that `init` describes, drawn on
    /// `content`: hidden, and bound for the dock that `init` names.
    pub fn new(id: usize, init: WindowInit, content: H) -> (window: Window<H>)
        ensures
            window.id == id,
            window@ == (WindowState {
                title: text_or_empty(init.title),
                icon: text_or_empty(init.icon),
                content,
                current_dock: None,
                last_dock: init.dock,
            }),
    {
        Window {
            id,
            title: text_of(init.title),
            icon: text_of(init.icon),
            content,
            current_dock: None,
            last_dock: init.dock,
        }
    }

    /// Whether the window occupies a dock.
    pub fn is_open(&self) -> (open: bool)
        ensures
            open == self.current_dock.is_some(),
    {
        self.current_dock.is_some()
    }
}

} // verus!
