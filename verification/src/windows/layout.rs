use vstd::prelude::*;

verus! {

/// A rectangle in window coordinates, as Win32's `RECT`.
#[derive(Debug, Clone, Copy, PartialEq, Eq, Structural)]
pub struct Rect {
    pub left: i32,
    pub top: i32,
    pub right: i32,
    pub bottom: i32,
}

/// A point in window or screen coordinates, as Win32's `POINT`.
#[derive(Debug, Clone, Copy, PartialEq, Eq, Structural)]
pub struct Point {
    pub x: i32,
    pub y: i32,
}

/// Where a child window goes, and its size.
#[derive(Debug, Clone, Copy, PartialEq, Eq, Structural)]
pub struct Placement {
    pub x: i32,
    pub y: i32,
    pub width: i32,
    pub height: i32,
}

/// Whether an integer fits in an `i32`.
pub open spec fn fits_i32(v: int) -> bool {
    i32::MIN <= v <= i32::MAX
}

/// Division by two rounding toward zero, as `i32` division does.
pub open spec fn half(d: int) -> int {
    if d >= 0 {
        d / 2
    } else {
        -((-d) / 2)
    }
}

/// The side of an icon drawn at `scale` times the extent given by its hotspot
/// (the hotspot of an icon lies at its centre, so twice it is the icon's size).
pub open spec fn icon_extent(hotspot: u32, scale: i32) -> int {
    (hotspot as i32) * scale
}

/// Whether `icon_placement` can compute without overflow.
pub open spec fn icon_placement_fits(client: Rect, hotspot_x: u32, hotspot_y: u32, scale: i32) -> bool {
    &&& fits_i32(icon_extent(hotspot_x, scale))
    &&& fits_i32(icon_extent(hotspot_y, scale))
    &&& fits_i32(client.right - client.left)
    &&& fits_i32(client.bottom - client.top)
    &&& fits_i32(client.right - client.left - icon_extent(hotspot_x, scale))
    &&& fits_i32(client.bottom - client.top - icon_extent(hotspot_y, scale))
}

/// An icon of `scale` times its hotspot extent, centred in `client`.
pub open spec fn icon_placement_of(client: Rect, hotspot_x: u32, hotspot_y: u32, scale: i32) -> Placement {
    let w = icon_extent(hotspot_x, scale);
    let h = icon_extent(hotspot_y, scale);
    Placement {
        x: half(client.right - client.left - w) as i32,
        y: half(client.bottom - client.top - h) as i32,
        width: w as i32,
        height: h as i32,
    }
}

/// Places an icon of `scale` times its hotspot extent at the centre of the
/// client area `client`.
pub fn icon_placement(client: Rect, hotspot_x: u32, hotspot_y: u32, scale: i32) -> (res: Placement)
    requires
        icon_placement_fits(client, hotspot_x, hotspot_y, scale),
    ensures
        res == icon_placement_of(client, hotspot_x, hotspot_y, scale),
{
    let icon_w = hotspot_x as i32 * scale;
    let icon_h = hotspot_y as i32 * scale;
    let x = (client.right - client.left - icon_w) / 2;
    let y = (client.bottom - client.top - icon_h) / 2;
    Placement { x, y, width: icon_w, height: icon_h }
}

/// Width of the expand button.
pub const EXPAND_BUTTON_WIDTH: i32 = 80;

/// Height of the expand button.
pub const EXPAND_BUTTON_HEIGHT: i32 = 20;

/// Whether `expand_button_placement` can compute without overflow.
pub open spec fn expand_button_fits(client: Rect) -> bool {
    &&& fits_i32(client.right - client.left)
    &&& fits_i32(client.right - client.left - EXPAND_BUTTON_WIDTH)
    &&& fits_i32(client.bottom - (EXPAND_BUTTON_HEIGHT + 10))
}

/// The expand button: centred horizontally, ten pixels above the bottom edge.
pub open spec fn expand_button_placement_of(client: Rect) -> Placement {
    Placement {
        x: half(client.right - client.left - EXPAND_BUTTON_WIDTH) as i32,
        y: (client.bottom - (EXPAND_BUTTON_HEIGHT + 10)) as i32,
        width: EXPAND_BUTTON_WIDTH,
        height: EXPAND_BUTTON_HEIGHT,
    }
}

/// Places the expand button in the client area `client`.
pub fn expand_button_placement(client: Rect) -> (res: Placement)
    requires
        expand_button_fits(client),
    ensures
        res == expand_button_placement_of(client),
{
    let width = EXPAND_BUTTON_WIDTH;
    let height = EXPAND_BUTTON_HEIGHT;
    let px = (client.right - client.left - width) / 2;
    let py = client.bottom - (height + 10);
    Placement { x: px, y: py, width, height }
}

/// The expand button is centred across the client width, whatever the
/// height: twice its left edge plus its width is the client width, up to the
/// one pixel that division toward zero drops; its top edge is thirty pixels
/// above the bottom, and its size is 80 by 20.
pub proof fn lemma_expand_button_centred(client: Rect)
    ensures
        ({
            let p = expand_button_placement_of(client);
            let d = client.right - client.left - 80;
            &&& fits_i32(d) ==> (d >= 0 ==> 0 <= d - 2 * p.x <= 1)
            &&& fits_i32(d) ==> (d < 0 ==> -1 <= d - 2 * p.x <= 0)
            &&& fits_i32(client.bottom - 30) ==> p.y == client.bottom - 30
            &&& p.width == 80
            &&& p.height == 20
        }),
{
}

/// The expand button's left edge depends on the client's left and right
/// edges only.
pub proof fn lemma_expand_button_ignores_height(a: Rect, b: Rect)
    requires
        a.left == b.left,
        a.right == b.right,
    ensures
        expand_button_placement_of(a).x == expand_button_placement_of(b).x,
{
}

/// Whether `circular_region` can compute without overflow.
pub open spec fn circular_region_fits(client: Rect) -> bool {
    let r = if client.right - client.left <= client.bottom - client.top {
        half(client.right - client.left)
    } else {
        half(client.bottom - client.top)
    };
    &&& fits_i32(client.right - client.left)
    &&& fits_i32(client.bottom - client.top)
    &&& fits_i32(r * 2)
    &&& fits_i32(client.left + r * 2)
    &&& fits_i32(client.top + r * 2)
}

/// The bounding box of the largest circle that starts at the top left corner
/// of `client`: its diameter is the smaller side, rounded down to even.
pub open spec fn circular_region_of(client: Rect) -> Rect {
    let r = if client.right - client.left <= client.bottom - client.top {
        half(client.right - client.left)
    } else {
        half(client.bottom - client.top)
    };
    Rect {
        left: client.left,
        top: client.top,
        right: (client.left + r * 2) as i32,
        bottom: (client.top + r * 2) as i32,
    }
}

/// For a client area of non-negative width and height, the circular region is
/// a square at its top left corner whose side is even, fits within both the
/// width and the height, and is the largest such: two more pixels would
/// exceed the width or the height.
pub proof fn lemma_circular_region_square(client: Rect)
    requires
        client.right - client.left >= 0,
        client.bottom - client.top >= 0,
        circular_region_fits(client),
    ensures
        ({
            let r = circular_region_of(client);
            let w = client.right - client.left;
            let h = client.bottom - client.top;
            let side = r.right - r.left;
            &&& r.left == client.left
            &&& r.top == client.top
            &&& r.bottom - r.top == side
            &&& side % 2 == 0
            &&& 0 <= side <= w
            &&& side <= h
            &&& (side + 2 > w || side + 2 > h)
        }),
{
}

/// The bounding box of the circular region that an icon box is cut to.
pub fn circular_region(client: Rect) -> (res: Rect)
    requires
        circular_region_fits(client),
    ensures
        res == circular_region_of(client),
{
    let width = client.right - client.left;
    let height = client.bottom - client.top;
    let radius = if width <= height {
        width / 2
    } else {
        height / 2
    };
    Rect {
        left: client.left,
        top: client.top,
        right: client.left + radius * 2,
        bottom: client.top + radius * 2,
    }
}

} // verus!
