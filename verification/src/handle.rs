//! Handles to native resources, held as plain addresses.

use vstd::prelude::*;

verus! {

/// Reference to the native object behind a control.
#[derive(Clone, Copy, Debug, PartialEq, Eq, Structural)]
pub enum ControlHandle {
    /// The control is not attached to a native object yet.
    NoHandle,
    /// A native window, by its address.
    Hwnd(usize),
}

impl ControlHandle {
    /// True when the control is not attached to a native object.
    pub fn blank(&self) -> (b: bool)
        ensures
            b == (*self == ControlHandle::NoHandle),
    {
        match self {
            ControlHandle::NoHandle => true,
            ControlHandle::Hwnd(_) => false,
        }
    }

    /// The window address, when the handle is a window.
    pub fn hwnd(&self) -> (h: Option<usize>)
        ensures
            h == match *self {
                ControlHandle::NoHandle => None::<usize>,
                ControlHandle::Hwnd(w) => Some(w),
            },
    {
        match self {
            ControlHandle::NoHandle => None,
            ControlHandle::Hwnd(w) => Some(*w),
        }
    }
}

impl Default for ControlHandle {
    fn default() -> (h: ControlHandle)
        ensures
            h == ControlHandle::NoHandle,
    {
        ControlHandle::NoHandle
    }
}

/// A native font, by its address.
#[derive(Clone, Copy, Debug, PartialEq, Eq, Structural)]
pub struct Font {
    pub handle: usize,
}

} // verus!
