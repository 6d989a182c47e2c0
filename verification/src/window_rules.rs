//! Rules shared by the application's windows: what closing a window does, and
//! the rounded region and drop shadow of the borderless windows.

use vstd::prelude::*;

use crate::taskbar_window::{fits_i32, Rect};
use crate::text::{chars_equal, chars_of};

verus! {

/// What a close request on a window leads to.
#[derive(Clone, Copy, Debug, PartialEq, Eq, Structural)]
pub enum CloseAction {
    /// Keep the window but hide it (the application keeps running in the tray).
    Hide,
    /// Keep the window as it is.
    Keep,
    /// Let the window close.
    Close,
}

/// The main and settings windows are hidden instead of closed, the taskbar
/// window refuses to close, and any other window (the tray popup) closes.
pub open spec fn close_action_for(label: Seq<char>) -> CloseAction {
    if label == seq!['m', 'a', 'i', 'n'] {
        CloseAction::Hide
    } else if label == seq!['t', 'a', 's', 'k', 'b', 'a', 'r'] {
        CloseAction::Keep
    } else if label == seq!['s', 'e', 't', 't', 'i', 'n', 'g', 's'] {
        CloseAction::Hide
    } else {
        CloseAction::Close
    }
}

/// Decides what a close request on the window with this label does.
pub fn close_request_action(label: &str) -> (action: CloseAction)
    ensures
        action == close_action_for(label@),
{
    let chars = chars_of(label);
    let main: [char; 4] = ['m', 'a', 'i', 'n'];
    let taskbar: [char; 7] = ['t', 'a', 's', 'k', 'b', 'a', 'r'];
    let settings: [char; 8] = ['s', 'e', 't', 't', 'i', 'n', 'g', 's'];
    assert(main@ =~= seq!['m', 'a', 'i', 'n']);
    assert(taskbar@ =~= seq!['t', 'a', 's', 'k', 'b', 'a', 'r']);
    assert(settings@ =~= seq!['s', 'e', 't', 't', 'i', 'n', 'g', 's']);
    if chars_equal(chars.as_slice(), &main) {
        CloseAction::Hide
    } else if chars_equal(chars.as_slice(), &taskbar) {
        CloseAction::Keep
    } else if chars_equal(chars.as_slice(), &settings) {
        CloseAction::Hide
    } else {
        CloseAction::Close
    }
}

/// The corner ellipse of the rounded window region, in pixels (16 by 16,
/// a 10 px visual radius).
pub const CORNER_ELLIPSE: i32 = 16;

/// The rounded region of a window: from (0, 0) to one pixel past the
/// window's width and height, with `CORNER_ELLIPSE` corners.
#[derive(Clone, Copy, Debug, PartialEq, Eq, Structural)]
pub struct RoundedRegion {
    pub right: i32,
    pub bottom: i32,
    pub ellipse_width: i32,
    pub ellipse_height: i32,
}

/// The region computation does not overflow.
pub open spec fn region_in_range(window: Rect) -> bool {
    &&& fits_i32(window.right - window.left + 1)
    &&& fits_i32(window.bottom - window.top + 1)
    &&& fits_i32(window.right - window.left)
    &&& fits_i32(window.bottom - window.top)
}

/// Whether the rounded region of a window can be computed without
/// overflowing `i32`.
pub fn region_representable(window: Rect) -> (ok: bool)
    ensures
        ok == region_in_range(window),
{
    let width = window.right as i64 - window.left as i64;
    let height = window.bottom as i64 - window.top as i64;
    -2147483648i64 <= width && width < 2147483647i64 && -2147483648i64 <= height && height
        < 2147483647i64
}

/// The rounded region for a window with the given screen rectangle.
pub fn rounded_region(window: Rect) -> (region: RoundedRegion)
    requires
        region_in_range(window),
    ensures
        region.right == window.right - window.left + 1,
        region.bottom == window.bottom - window.top + 1,
        region.ellipse_width == CORNER_ELLIPSE,
        region.ellipse_height == CORNER_ELLIPSE,
{
    let width = window.right - window.left;
    let height = window.bottom - window.top;
    RoundedRegion {
        right: width + 1,
        bottom: height + 1,
        ellipse_width: CORNER_ELLIPSE,
        ellipse_height: CORNER_ELLIPSE,
    }
}

/// The class style bit that gives a window the system drop shadow.
pub const DROP_SHADOW: isize = 0x0002_0000;

/// A window style with the drop-shadow bit added.
pub fn with_drop_shadow(style: isize) -> (shadowed: isize)
    ensures
        shadowed == style | DROP_SHADOW,
{
    style | DROP_SHADOW
}

} // verus!
