//! The window and list styles that the control names when its widget is
//! made.

use vstd::prelude::*;

verus! {

/// The window style of a visible control.
pub const WS_VISIBLE: u32 = 0x1000_0000;

/// The window style of a control that lives inside another window.
pub const WS_CHILD: u32 = 0x4000_0000;

/// The window style of a control with a thin border.
pub const WS_BORDER: u32 = 0x0080_0000;

/// The window style of a control with a vertical scroll bar.
pub const WS_VSCROLL: u32 = 0x0020_0000;

/// The list style that reports clicks on rows to the parent window.
pub const LBS_NOTIFY: u32 = 0x0001;

/// The list style of a widget that keeps its rows sorted.
pub const LBS_SORT: u32 = 0x0002;

/// The list style of a widget that keeps the text of its rows.
pub const LBS_HASSTRINGS: u32 = 0x0040;

} // verus!
