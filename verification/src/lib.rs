//! The core of a desktop of dockable windows inside a web page.
//!
//! The desktop has a taskbar, four docks at its edges and a center. Windows
//! are created hidden, shown in a dock, moved between docks by drag and
//! drop, and hidden again; docks and windows are resized by dragging
//! handles. This crate holds the rules of all that, each with a contract
//! that is machine-checked:
//!
//! - `geometry`: resizing a window rectangle by one of its handles;
//! - `dock`: the five docks;
//! - `window`: one window and what it is created from;
//! - `layout`: the desktop as a mathematical state machine;
//! - `screen`: the desktop itself, which carries out commands;
//! - `laws`: what holds of the desktop whatever commands it is given;
//! - `dragndrop`: input occurrences in one shape, and the drag lifecycle;
//! - `drop_zone`: docking by native drag and drop.
//!
//! The crate touches no page. It takes plain values and answers with plain
//! values; reading events and drawing are left to its user.
pub mod dock;
pub mod dragndrop;
pub mod drop_zone;
pub mod geometry;
pub mod laws;
pub mod layout;
pub mod screen;
pub mod window;
