//! Corner-preserving resize of a window rectangle.
//!
//! A window is dragged either by its title bar, which moves it, or by one of
//! eight handles on its edges and corners, which resize it. A resize holds
//! both extents at their minimum, and the corner opposite to the handle
//! stays where it was, even when the requested size is cut off.
use vstd::prelude::*;

verus! {

/// Where on a window a drag handle sits.
#[derive(Clone, Copy, Debug, PartialEq, Eq, Structural)]
pub enum AnchorPosition {
    Title,
    N,
    S,
    W,
    E,
    NW,
    NE,
    SW,
    SE,
}

impl AnchorPosition {
    /// The handle lies on the left side of the window.
    pub open spec fn touches_west(self) -> bool {
        self == AnchorPosition::W || self == AnchorPosition::NW || self == AnchorPosition::SW
    }

    /// The handle lies on the right side of the window.
    pub open spec fn touches_east(self) -> bool {
        self == AnchorPosition::E || self == AnchorPosition::NE || self == AnchorPosition::SE
    }

    /// The handle lies on the upper side of the window.
    pub open spec fn touches_north(self) -> bool {
        self == AnchorPosition::N || self == AnchorPosition::NW || self == AnchorPosition::NE
    }

    /// The handle lies on the lower side of the window.
    pub open spec fn touches_south(self) -> bool {
        self == AnchorPosition::S || self == AnchorPosition::SW || self == AnchorPosition::SE
    }

    /// The handle is the title bar, which moves the window.
    pub open spec fn is_title(self) -> bool {
        self == AnchorPosition::Title
    }

    pub fn on_west(self) -> (b: bool)
        ensures
            b == self.touches_west(),
    {
        match self {
            AnchorPosition::W | AnchorPosition::NW | AnchorPosition::SW => true,
            _ => false,
        }
    }

    pub fn on_east(self) -> (b: bool)
        ensures
            b == self.touches_east(),
    {
        match self {
            AnchorPosition::E | AnchorPosition::NE | AnchorPosition::SE => true,
            _ => false,
        }
    }

    pub fn on_north(self) -> (b: bool)
        ensures
            b == self.touches_north(),
    {
        match self {
            AnchorPosition::N | AnchorPosition::NW | AnchorPosition::NE => true,
            _ => false,
        }
    }

    pub fn on_south(self) -> (b: bool)
        ensures
            b == self.touches_south(),
    {
        match self {
            AnchorPosition::S | AnchorPosition::SW | AnchorPosition::SE => true,
            _ => false,
        }
    }
}

/// A window rectangle in screen pixels.
#[derive(Clone, Copy, Debug, PartialEq, Eq, Structural)]
pub struct Rect {
    pub x: i32,
    pub y: i32,
    pub width: i32,
    pub height: i32,
}

/// A rectangle over the unbounded integers: what a `Rect` stands for.
pub struct Frame {
    pub x: int,
    pub y: int,
    pub width: int,
    pub height: int,
}

impl Frame {
    /// The coordinate of the right side.
    pub open spec fn right(self) -> int {
        self.x + self.width
    }

    /// The coordinate of the lower side.
    pub open spec fn bottom(self) -> int {
        self.y + self.height
    }

    /// Every field can be stored in a `Rect`.
    pub open spec fn representable(self) -> bool {
        &&& i32::MIN <= self.x <= i32::MAX
        &&& i32::MIN <= self.y <= i32::MAX
        &&& i32::MIN <= self.width <= i32::MAX
        &&& i32::MIN <= self.height <= i32::MAX
    }

    /// The corner that lies diametrically opposite to `anchor`: for a handle
    /// on the left the right side, for a handle above the lower side, and
    /// else the left and upper sides.
    pub open spec fn opposite_corner(self, anchor: AnchorPosition) -> (int, int) {
        (
            if anchor.touches_west() {
                self.right()
            } else {
                self.x
            },
            if anchor.touches_north() {
                self.bottom()
            } else {
                self.y
            },
        )
    }
}

impl View for Rect {
    type V = Frame;

    open spec fn view(&self) -> Frame {
        Frame { x: self.x as int, y: self.y as int, width: self.width as int, height: self.height as int }
    }
}

/// The larger of `value` and `floor`.
pub open spec fn at_least(value: int, floor: int) -> int {
    if value < floor {
        floor
    } else {
        value
    }
}

/// The extent along one axis after a drag by `delta`: grown by it for a
/// handle on the far side, shrunk by it for one on the near side, as it was
/// for a handle that touches neither; and in each case held at `floor`.
pub open spec fn resized_extent(extent: int, near: bool, far: bool, delta: int, floor: int) -> int {
    at_least(
        if far {
            extent + delta
        } else if near {
            extent - delta
        } else {
            extent
        },
        floor,
    )
}

/// The origin along one axis after the same drag: for a handle on the near
/// side it is what keeps the far side where it was.
pub open spec fn resized_origin(
    origin: int,
    extent: int,
    near: bool,
    far: bool,
    delta: int,
    floor: int,
) -> int {
    if !far && near {
        origin + extent - resized_extent(extent, near, far, delta, floor)
    } else {
        origin
    }
}

/// The rectangle that a drag of `anchor` by `(dx, dy)` makes of `frame`.
pub open spec fn resized(
    frame: Frame,
    anchor: AnchorPosition,
    dx: int,
    dy: int,
    min_width: int,
    min_height: int,
) -> Frame {
    if anchor.is_title() {
        Frame { x: frame.x + dx, y: frame.y + dy, width: frame.width, height: frame.height }
    } else {
        Frame {
            x: resized_origin(
                frame.x,
                frame.width,
                anchor.touches_west(),
                anchor.touches_east(),
                dx,
                min_width,
            ),
            y: resized_origin(
                frame.y,
                frame.height,
                anchor.touches_north(),
                anchor.touches_south(),
                dy,
                min_height,
            ),
            width: resized_extent(
                frame.width,
                anchor.touches_west(),
                anchor.touches_east(),
                dx,
                min_width,
            ),
            height: resized_extent(
                frame.height,
                anchor.touches_north(),
                anchor.touches_south(),
                dy,
                min_height,
            ),
        }
    }
}

fn extent_after(extent: i32, near: bool, far: bool, delta: i64, floor: i32) -> (out: i128)
    ensures
        out == resized_extent(extent as int, near, far, delta as int, floor as int),
{
    let wide: i128 = extent as i128;
    let step: i128 = delta as i128;
    let least: i128 = floor as i128;
    let wanted: i128 = if far {
        wide + step
    } else if near {
        wide - step
    } else {
        wide
    };
    if wanted < least {
        least
    } else {
        wanted
    }
}

/// The four numbers of the rectangle after the drag, before they are
/// stored: the origin, then the extents.
fn dragged(
    rect: Rect,
    anchor: AnchorPosition,
    dx: i64,
    dy: i64,
    min_width: i32,
    min_height: i32,
) -> (out: (i128, i128, i128, i128))
    ensures
        resized(rect@, anchor, dx as int, dy as int, min_width as int, min_height as int) == (Frame {
            x: out.0 as int,
            y: out.1 as int,
            width: out.2 as int,
            height: out.3 as int,
        }),
{
    let west: bool = anchor.on_west();
    let east: bool = anchor.on_east();
    let north: bool = anchor.on_north();
    let south: bool = anchor.on_south();
    match anchor {
        AnchorPosition::Title => (
            rect.x as i128 + dx as i128,
            rect.y as i128 + dy as i128,
            rect.width as i128,
            rect.height as i128,
        ),
        _ => {
            let width: i128 = extent_after(rect.width, west, east, dx, min_width);
            let height: i128 = extent_after(rect.height, north, south, dy, min_height);
            let x: i128 = if west && !east {
                rect.x as i128 + rect.width as i128 - width
            } else {
                rect.x as i128
            };
            let y: i128 = if north && !south {
                rect.y as i128 + rect.height as i128 - height
            } else {
                rect.y as i128
            };
            (x, y, width, height)
        },
    }
}

fn fits(value: i128) -> (inside: bool)
    ensures
        inside == (i32::MIN <= value <= i32::MAX),
{
    -2147483648 <= value && value <= 2147483647
}

/// Drags `anchor` of `rect` by `(dx, dy)`. The result is `None` exactly when
/// a coordinate or an extent of the new rectangle cannot be stored.
pub fn checked_resize(
    rect: Rect,
    anchor: AnchorPosition,
    dx: i64,
    dy: i64,
    min_width: i32,
    min_height: i32,
) -> (out: Option<Rect>)
    ensures
        out.is_some() <==> resized(
            rect@,
            anchor,
            dx as int,
            dy as int,
            min_width as int,
            min_height as int,
        ).representable(),
        out.is_some() ==> out.unwrap()@ == resized(
            rect@,
            anchor,
            dx as int,
            dy as int,
            min_width as int,
            min_height as int,
        ),
{
    let (x, y, width, height) = dragged(rect, anchor, dx, dy, min_width, min_height);
    if fits(x) && fits(y) && fits(width) && fits(height) {
        Some(Rect { x: x as i32, y: y as i32, width: width as i32, height: height as i32 })
    } else {
        None
    }
}

/// Drags `anchor` of `rect` by `(dx, dy)`: the title bar moves the window,
/// any other handle resizes it, with the extents held at their minimum and
/// the opposite corner left where it was.
pub fn resize(
    rect: Rect,
    anchor: AnchorPosition,
    dx: i64,
    dy: i64,
    min_width: i32,
    min_height: i32,
) -> (out: Rect)
    requires
        resized(
            rect@,
            anchor,
            dx as int,
            dy as int,
            min_width as int,
            min_height as int,
        ).representable(),
    ensures
        out@ == resized(rect@, anchor, dx as int, dy as int, min_width as int, min_height as int),
{
    let (x, y, width, height) = dragged(rect, anchor, dx, dy, min_width, min_height);
    Rect { x: x as i32, y: y as i32, width: width as i32, height: height as i32 }
}

/// A resize leaves the corner opposite to the dragged handle where it was,
/// whatever the drag and the minimum extents are.
pub proof fn lemma_resize_keeps_opposite_corner(
    frame: Frame,
    anchor: AnchorPosition,
    dx: int,
    dy: int,
    min_width: int,
    min_height: int,
)
    requires
        !anchor.is_title(),
    ensures
        resized(frame, anchor, dx, dy, min_width, min_height).opposite_corner(anchor)
            == frame.opposite_corner(anchor),
{
}

/// A resize moves no near side that the dragged handle does not touch, and
/// no far side either, unless the extent was below its minimum.
pub proof fn lemma_resize_keeps_untouched_sides(
    frame: Frame,
    anchor: AnchorPosition,
    dx: int,
    dy: int,
    min_width: int,
    min_height: int,
)
    requires
        !anchor.is_title(),
    ensures
        ({
            let out = resized(frame, anchor, dx, dy, min_width, min_height);
            &&& !anchor.touches_west() ==> out.x == frame.x
            &&& !anchor.touches_north() ==> out.y == frame.y
            &&& !anchor.touches_east() && (anchor.touches_west() || frame.width >= min_width)
                ==> out.right() == frame.right()
            &&& !anchor.touches_south() && (anchor.touches_north() || frame.height >= min_height)
                ==> out.bottom() == frame.bottom()
        }),
{
}

/// A resize changes no extent along an axis that the handle does not touch,
/// unless the extent was below its minimum.
pub proof fn lemma_resize_keeps_untouched_extents(
    frame: Frame,
    anchor: AnchorPosition,
    dx: int,
    dy: int,
    min_width: int,
    min_height: int,
)
    requires
        !anchor.is_title(),
    ensures
        ({
            let out = resized(frame, anchor, dx, dy, min_width, min_height);
            &&& !anchor.touches_west() && !anchor.touches_east() ==> out.width == at_least(
                frame.width,
                min_width,
            )
            &&& !anchor.touches_north() && !anchor.touches_south() ==> out.height == at_least(
                frame.height,
                min_height,
            )
        }),
{
}

/// After a resize neither extent is below its minimum.
pub proof fn lemma_resize_respects_minimum(
    frame: Frame,
    anchor: AnchorPosition,
    dx: int,
    dy: int,
    min_width: int,
    min_height: int,
)
    requires
        !anchor.is_title(),
    ensures
        resized(frame, anchor, dx, dy, min_width, min_height).width >= min_width,
        resized(frame, anchor, dx, dy, min_width, min_height).height >= min_height,
{
}

/// Where the minimum does not cut it off, a resize changes an extent by the
/// drag: a handle on the far side adds it, one on the near side takes it
/// away.
pub proof fn lemma_resize_follows_drag(
    frame: Frame,
    anchor: AnchorPosition,
    dx: int,
    dy: int,
    min_width: int,
    min_height: int,
)
    requires
        !anchor.is_title(),
    ensures
        ({
            let out = resized(frame, anchor, dx, dy, min_width, min_height);
            &&& anchor.touches_east() && frame.width + dx >= min_width ==> out.width == frame.width
                + dx
            &&& anchor.touches_west() && frame.width - dx >= min_width ==> out.width == frame.width
                - dx && out.x == frame.x + dx
            &&& anchor.touches_south() && frame.height + dy >= min_height ==> out.height
                == frame.height + dy
            &&& anchor.touches_north() && frame.height - dy >= min_height ==> out.height
                == frame.height - dy && out.y == frame.y + dy
        }),
{
}

/// Dragging the title bar moves the window by the drag and keeps its size.
pub proof fn lemma_title_drag_moves(frame: Frame, dx: int, dy: int, min_width: int, min_height: int)
    ensures
        resized(frame, AnchorPosition::Title, dx, dy, min_width, min_height) == (Frame {
            x: frame.x + dx,
            y: frame.y + dy,
            width: frame.width,
            height: frame.height,
        }),
{
}

} // verus!
