//! The taskbar speed window: whether it has been embedded into the taskbar,
//! the steps of embedding it, and where it is placed next to the notification
//! area.

use vstd::prelude::*;

verus! {

/// Whether the taskbar window has been re-parented into the taskbar.
pub struct TaskbarEmbedding {
    pub embedded: bool,
}

impl TaskbarEmbedding {
    /// The state at startup: not embedded.
    pub fn new() -> (embedding: TaskbarEmbedding)
        ensures
            !embedding.embedded,
    {
        TaskbarEmbedding { embedded: false }
    }
}

/// Whether the taskbar window has been embedded.
pub fn is_embedded(embedding: &TaskbarEmbedding) -> (embedded: bool)
    ensures
        embedded == embedding.embedded,
{
    embedding.embedded
}

/// How to embed the window: hide it before re-parenting when it is not to be
/// shown, then show it (without activating it) or hide it again.
#[derive(Clone, Copy, Debug, PartialEq, Eq, Structural)]
pub struct EmbedPlan {
    pub hide_before_reparent: bool,
    pub show_after: bool,
}

/// The plan for an embedding request: none when the window is already
/// embedded, otherwise hide-before and show-after as the visibility setting says.
pub open spec fn embed_plan(embedded: bool, should_show: bool) -> Option<EmbedPlan> {
    if embedded {
        None
    } else {
        Some(EmbedPlan { hide_before_reparent: !should_show, show_after: should_show })
    }
}

/// Decides what an embedding request does; `should_show` is the stored
/// taskbar visibility. `None` means the request is skipped (and no
/// repositioning timer is started).
pub fn plan_embedding(embedding: &TaskbarEmbedding, should_show: bool) -> (plan: Option<EmbedPlan>)
    ensures
        plan == embed_plan(embedding.embedded, should_show),
{
    if embedding.embedded {
        None
    } else {
        Some(EmbedPlan { hide_before_reparent: !should_show, show_after: should_show })
    }
}

/// Records that the window has been re-parented into the taskbar.
pub fn mark_embedded(embedding: &mut TaskbarEmbedding)
    ensures
        final(embedding).embedded,
{
    embedding.embedded = true;
}

/// Records that the window has been detached from the taskbar (on exit).
pub fn mark_detached(embedding: &mut TaskbarEmbedding)
    ensures
        !final(embedding).embedded,
{
    embedding.embedded = false;
}

/// Once embedded, further embedding requests do nothing until the window is
/// detached; after detaching, a request embeds it again.
pub proof fn lemma_embed_once(should_show: bool)
    ensures
        embed_plan(true, should_show) is None,
        embed_plan(false, should_show) is Some,
        embed_plan(false, should_show)->0.show_after == should_show,
        embed_plan(false, should_show)->0.hide_before_reparent == !should_show,
{
}

// ---------------------------------------------------------------------------
// Placement
// ---------------------------------------------------------------------------

/// A point in pixels.
#[derive(Clone, Copy, Debug, PartialEq, Eq, Structural)]
pub struct Point {
    pub x: i32,
    pub y: i32,
}

/// A rectangle in pixels, by its edges.
#[derive(Clone, Copy, Debug, PartialEq, Eq, Structural)]
pub struct Rect {
    pub left: i32,
    pub top: i32,
    pub right: i32,
    pub bottom: i32,
}

/// Where the window is placed against: the top-left corner of the
/// notification area and its height, in taskbar client coordinates.
#[derive(Clone, Copy, Debug, PartialEq, Eq, Structural)]
pub struct TrayAnchor {
    pub x: i32,
    pub y: i32,
    pub height: i32,
}

/// A value of `i32`'s range.
pub open spec fn fits_i32(v: int) -> bool {
    i32::MIN <= v <= i32::MAX
}

/// Rust's `/` on integers: the quotient rounded toward zero.
pub open spec fn div_toward_zero(a: int, b: int) -> int {
    if a >= 0 {
        a / b
    } else {
        -((-a) / b)
    }
}

/// A taskbar wider than it is tall lies along the top or bottom of the screen.
pub open spec fn horizontal(taskbar: Rect) -> bool {
    taskbar.right - taskbar.left > taskbar.bottom - taskbar.top
}

/// The anchor: the notification area's corners when they are known, otherwise
/// the taskbar's top-right corner with the taskbar's height.
pub open spec fn anchor_of(
    taskbar: Rect,
    tray_corners: Option<(Point, Point)>,
    taskbar_top_right: Point,
) -> TrayAnchor {
    match tray_corners {
        Some((lt, rb)) => TrayAnchor { x: lt.x, y: lt.y, height: (rb.y - lt.y) as i32 },
        None => TrayAnchor {
            x: taskbar_top_right.x,
            y: taskbar_top_right.y,
            height: (taskbar.bottom - taskbar.top) as i32,
        },
    }
}

/// Every subtraction, addition and halving of the placement stays in `i32`'s
/// range (outside it the computation would overflow).
pub open spec fn placement_in_range(
    taskbar: Rect,
    tray_corners: Option<(Point, Point)>,
    taskbar_top_right: Point,
    taskbar_client_right: i32,
    width: i32,
    height: i32,
) -> bool {
    let a = anchor_of(taskbar, tray_corners, taskbar_top_right);
    &&& fits_i32(taskbar.right - taskbar.left)
    &&& fits_i32(taskbar.bottom - taskbar.top)
    &&& (tray_corners matches Some((lt, rb)) ==> fits_i32(rb.y - lt.y))
    &&& (horizontal(taskbar) ==> {
        &&& fits_i32(a.x - width)
        &&& fits_i32(a.height - height)
        &&& fits_i32(a.y + div_toward_zero(a.height - height, 2))
    })
    &&& (!horizontal(taskbar) ==> {
        &&& fits_i32(div_toward_zero(taskbar_client_right as int, 2) - div_toward_zero(width as int, 2))
        &&& fits_i32(a.y - height)
    })
}

/// The window's top-left corner: on a horizontal taskbar just left of the
/// notification area and centred on it vertically; on a vertical taskbar just
/// above it and centred across the taskbar's width.
pub open spec fn placement(
    taskbar: Rect,
    tray_corners: Option<(Point, Point)>,
    taskbar_top_right: Point,
    taskbar_client_right: i32,
    width: i32,
    height: i32,
) -> Point {
    let a = anchor_of(taskbar, tray_corners, taskbar_top_right);
    if horizontal(taskbar) {
        Point { x: (a.x - width) as i32, y: (a.y + div_toward_zero(a.height - height, 2)) as i32 }
    } else {
        Point {
            x: (div_toward_zero(taskbar_client_right as int, 2) - div_toward_zero(width as int, 2)) as i32,
            y: (a.y - height) as i32,
        }
    }
}

/// Whether `v` lies in `i32`'s range.
fn in_i32(v: i64) -> (fits: bool)
    ensures
        fits == fits_i32(v as int),
{
    -2147483648i64 <= v && v <= 2147483647i64
}

/// `a / 2` rounded toward zero, as Rust computes it.
fn half_toward_zero(a: i64) -> (h: i64)
    ensures
        h == div_toward_zero(a as int, 2),
{
    a / 2
}

/// Whether the placement of a window of this size can be computed without
/// overflowing `i32` (see `placement_in_range`).
pub fn placement_representable(
    taskbar: Rect,
    tray_corners: Option<(Point, Point)>,
    taskbar_top_right: Point,
    taskbar_client_right: i32,
    width: i32,
    height: i32,
) -> (ok: bool)
    ensures
        ok == placement_in_range(taskbar, tray_corners, taskbar_top_right, taskbar_client_right, width, height),
{
    let tb_width = taskbar.right as i64 - taskbar.left as i64;
    let tb_height = taskbar.bottom as i64 - taskbar.top as i64;
    if !in_i32(tb_width) || !in_i32(tb_height) {
        return false;
    }
    let (tray_x, tray_y, tray_h) = match tray_corners {
        Some((lt, rb)) => {
            let h = rb.y as i64 - lt.y as i64;
            if !in_i32(h) {
                return false;
            }
            (lt.x as i64, lt.y as i64, h)
        },
        None => (taskbar_top_right.x as i64, taskbar_top_right.y as i64, tb_height),
    };
    if tb_width > tb_height {
        let gap = tray_h - height as i64;
        in_i32(tray_x - width as i64) && in_i32(gap) && in_i32(tray_y + half_toward_zero(gap))
    } else {
        in_i32(half_toward_zero(taskbar_client_right as i64) - half_toward_zero(width as i64))
            && in_i32(tray_y - height as i64)
    }
}

/// The rectangle moved by `dx` to the right and `dy` down.
pub open spec fn translated(r: Rect, dx: int, dy: int) -> Rect {
    Rect {
        left: (r.left + dx) as i32,
        top: (r.top + dy) as i32,
        right: (r.right + dx) as i32,
        bottom: (r.bottom + dy) as i32,
    }
}

/// Where the window goes is computed in the taskbar's client coordinates: the
/// same client-side inputs give the same position wherever the taskbar lies
/// on the screen.
pub proof fn lemma_placement_ignores_taskbar_screen_position(
    taskbar: Rect,
    dx: int,
    dy: int,
    tray_corners: Option<(Point, Point)>,
    taskbar_top_right: Point,
    taskbar_client_right: i32,
    width: i32,
    height: i32,
)
    requires
        fits_i32(taskbar.left + dx),
        fits_i32(taskbar.right + dx),
        fits_i32(taskbar.top + dy),
        fits_i32(taskbar.bottom + dy),
    ensures
        placement(translated(taskbar, dx, dy), tray_corners, taskbar_top_right, taskbar_client_right, width, height)
            == placement(taskbar, tray_corners, taskbar_top_right, taskbar_client_right, width, height),
{
}

/// On a vertical taskbar (not wider than tall) the window sits just above the
/// notification area, horizontally centred across the taskbar's client width:
/// twice its x is the client width minus its own width, up to the rounding of
/// each half toward zero.
pub proof fn lemma_vertical_placement(
    taskbar: Rect,
    lt: Point,
    rb: Point,
    taskbar_top_right: Point,
    taskbar_client_right: i32,
    width: i32,
    height: i32,
)
    requires
        taskbar.right - taskbar.left <= taskbar.bottom - taskbar.top,
        placement_in_range(taskbar, Some((lt, rb)), taskbar_top_right, taskbar_client_right, width, height),
        taskbar_client_right >= 0,
        width >= 0,
    ensures
        ({
            let p = placement(taskbar, Some((lt, rb)), taskbar_top_right, taskbar_client_right, width, height);
            &&& p.y + height == lt.y
            &&& taskbar_client_right - width - 1 <= 2 * p.x <= taskbar_client_right - width + 1
            &&& p.x == taskbar_client_right / 2 - width / 2
        }),
{
}

/// On a horizontal taskbar (wider than tall) the window's right edge touches
/// the notification area's left edge, and it is centred on the notification
/// area's height (the halved gap rounded toward zero).
pub proof fn lemma_horizontal_placement(
    taskbar: Rect,
    lt: Point,
    rb: Point,
    taskbar_top_right: Point,
    taskbar_client_right: i32,
    width: i32,
    height: i32,
)
    requires
        taskbar.right - taskbar.left > taskbar.bottom - taskbar.top,
        placement_in_range(taskbar, Some((lt, rb)), taskbar_top_right, taskbar_client_right, width, height),
    ensures
        ({
            let p = placement(taskbar, Some((lt, rb)), taskbar_top_right, taskbar_client_right, width, height);
            let gap = rb.y - lt.y - height;
            &&& p.x + width == lt.x
            &&& gap >= 0 ==> p.y - lt.y == gap / 2
            &&& gap < 0 ==> p.y - lt.y == -((-gap) / 2)
        }),
{
}

/// Where to move the taskbar window of the given size.
///
/// `taskbar` is the taskbar's screen rectangle; `tray_corners` the
/// notification area's top-left and bottom-right corners in taskbar client
/// coordinates, when that window and its rectangle were found;
/// `taskbar_top_right` the taskbar's top-right corner and
/// `taskbar_client_right` the x of its bottom-right corner, in client coordinates.
pub fn taskbar_window_position(
    taskbar: Rect,
    tray_corners: Option<(Point, Point)>,
    taskbar_top_right: Point,
    taskbar_client_right: i32,
    width: i32,
    height: i32,
) -> (position: Point)
    requires
        placement_in_range(taskbar, tray_corners, taskbar_top_right, taskbar_client_right, width, height),
    ensures
        position == placement(taskbar, tray_corners, taskbar_top_right, taskbar_client_right, width, height),
        taskbar.right - taskbar.left <= taskbar.bottom - taskbar.top && taskbar_client_right >= 0
            && width >= 0 ==> position.x == taskbar_client_right / 2 - width / 2,
        taskbar.right - taskbar.left > taskbar.bottom - taskbar.top ==> (tray_corners matches Some(
            (lt, rb),
        ) ==> position.x + width == lt.x),
{
    let is_horizontal = (taskbar.right - taskbar.left) > (taskbar.bottom - taskbar.top);
    let (tray_x, tray_y, tray_h) = match tray_corners {
        Some((lt, rb)) => (lt.x, lt.y, rb.y - lt.y),
        None => (taskbar_top_right.x, taskbar_top_right.y, taskbar.bottom - taskbar.top),
    };
    if is_horizontal {
        Point { x: tray_x - width, y: tray_y + (tray_h - height) / 2 }
    } else {
        Point { x: taskbar_client_right / 2 - width / 2, y: tray_y - height }
    }
}

} // verus!
