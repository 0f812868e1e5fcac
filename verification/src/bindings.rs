//! Key and mouse input descriptors carried inside events.
use vstd::prelude::*;
use crate::data_types::Point;
use crate::xconnection::Xid;

verus! {

/// A grabbed key chord: modifier mask plus key code.
#[derive(Debug, Clone, Copy, PartialEq, Eq, Hash)]
pub struct KeyCode {
    /// The held modifier mask
    pub mask: u16,
    /// The key code that was held
    pub code: u8,
}

/// A mouse button.
#[derive(Debug, Clone, Copy, PartialEq, Eq, Hash)]
pub enum MouseButton {
    /// 1
    Left,
    /// 2
    Middle,
    /// 3
    Right,
    /// 4
    ScrollUp,
    /// 5
    ScrollDown,
}

/// A mouse movement or button press inside a window.
#[derive(Debug, Clone, Copy, PartialEq, Eq, Hash)]
pub struct MouseEvent {
    /// The window that the event occurred in
    pub id: Xid,
    /// Absolute coordinate of the event
    pub rpt: Point,
    /// Coordinate of the event relative to the top-left of the window
    pub wpt: Point,
    /// The button that was pressed or held
    pub button: MouseButton,
}

} // verus!
