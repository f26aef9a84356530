//! The notifications that controls send, and the data that comes with them.

use vstd::prelude::*;
use crate::drop_files::{released, DropFiles, DropRequest};
use crate::tooltip::ToolTipTextData;

verus! {

/// Which mouse button moved, and which way.
#[derive(Clone, Copy, Debug, PartialEq, Eq, Structural)]
pub enum MousePressEvent {
    MousePressLeftUp,
    MousePressLeftDown,
    MousePressRightUp,
    MousePressRightDown,
}

/// The kinds of notification. A kind carries no data; what comes with a
/// notification is its `EventData`.
#[derive(Clone, Copy, Debug, PartialEq, Eq, Structural)]
pub enum Event {
    /// A notification that the library has no kind for.
    Unknown,
    /// A mouse button went down or up over the control.
    OnMousePress(MousePressEvent),
    /// The mouse moved over the control.
    OnMouseMove,
    /// The mouse wheel turned; the data is `EventData::OnMouseWheel`.
    OnMouseWheel,
    /// The user asked for the context menu of the window.
    OnContextMenu,
    /// A top level window was created.
    OnInit,
    /// The control needs to be painted; the data is `EventData::OnPaint`.
    OnPaint,
    /// A key gave a character; the data is `EventData::OnChar`.
    OnChar,
    /// A key went down; the data is `EventData::OnKey`.
    OnKeyPress,
    /// A key went up; the data is `EventData::OnKey`.
    OnKeyRelease,
    /// The control changed its size.
    OnResize,
    /// The user began to resize the control.
    OnResizeBegin,
    /// The user stopped resizing the control.
    OnResizeEnd,
    /// The window was maximized.
    OnWindowMaximize,
    /// The window was minimized.
    OnWindowMinimize,
    /// The control changed its place.
    OnMove,
    /// The value of a vertical bar changed.
    OnVerticalScroll,
    /// The value of a horizontal bar changed.
    OnHorizontalScroll,
    /// Files were dropped on the control; the data is
    /// `EventData::OnFileDrop`.
    OnFileDrop,
    /// A button was clicked.
    OnButtonClick,
    /// A button was clicked twice in quick succession.
    OnButtonDoubleClick,
    /// A label was clicked.
    OnLabelClick,
    /// A label was clicked twice in quick succession.
    OnLabelDoubleClick,
    /// An image frame was clicked.
    OnImageFrameClick,
    /// An image frame was clicked twice in quick succession.
    OnImageFrameDoubleClick,
    /// The text of a text input changed.
    OnTextInput,
    /// The list of a combo box closed.
    OnComboBoxClosed,
    /// The list of a combo box is about to open.
    OnComboBoxDropdown,
    /// The selection of a combo box changed.
    OnComboxBoxSelection,
    /// The calendar of a date picker opened.
    OnDatePickerDropdown,
    /// The calendar of a date picker closed.
    OnDatePickerClosed,
    /// The value of a date picker changed.
    OnDatePickerChanged,
    /// A row of a list box was clicked twice in quick succession.
    OnListBoxDoubleClick,
    /// A row of a list box was selected.
    OnListBoxSelect,
    /// Another tab of a tabs container is shown.
    TabsContainerChanged,
    /// Another tab of a tabs container is about to be shown.
    TabsContainerChanging,
    /// The user let go of the thumb of a track bar.
    TrackBarUpdated,
    /// A menu opened.
    OnMenuOpen,
    /// The pointer or the keyboard reached a menu item.
    OnMenuHover,
    /// The user chose a menu item.
    OnMenuItemSelected,
    /// The platform asks for the text of a tooltip; the data is
    /// `EventData::OnTooltipText`.
    OnTooltipText,
    /// A tree view was clicked with the left button.
    OnTreeViewClick,
    /// A tree view was clicked twice with the left button.
    OnTreeViewDoubleClick,
    /// A tree view was clicked with the right button.
    OnTreeViewRightClick,
    /// A tree view lost the input focus.
    OnTreeFocusLost,
    /// A tree view got the input focus.
    OnTreeFocus,
    /// An item was removed from a tree view.
    OnTreeItemDelete,
    /// An item of a tree view was expanded.
    OnTreeItemExpanded,
    /// The state of an item of a tree view changed.
    OnTreeItemChanged,
    /// Another item of a tree view was selected.
    OnTreeItemSelectionChanged,
    /// The popup of a tray notification is shown.
    OnTrayNotificationShow,
    /// The popup of a tray notification is hidden.
    OnTrayNotificationHide,
    /// A tray notification closed after its time ran out.
    OnTrayNotificationTimeout,
    /// The user closed a tray notification.
    OnTrayNotificationUserClose,
    /// The delay of a timer has passed.
    OnTimerTick,
    /// A notice was raised.
    OnNotice,
    /// The user asked to close a window; the data is
    /// `EventData::OnWindowClose`.
    OnWindowClose,
}

/// The answer to a request to close a window: whether the window closes
/// once the callbacks have run. The dispatcher makes it before they run and
/// reads it after.
#[derive(Debug)]
pub struct WindowCloseData {
    data: bool,
}

impl WindowCloseData {
    /// The answer as it stands.
    pub closed spec fn will_close(&self) -> bool {
        self.data
    }

    /// An answer that starts as `closing`.
    pub fn new(closing: bool) -> (data: WindowCloseData)
        ensures
            data.will_close() == closing,
    {
        WindowCloseData { data: closing }
    }

    /// Sets whether the window closes after the notification.
    pub fn close(&mut self, value: bool)
        ensures
            final(self).will_close() == value,
    {
        self.data = value;
    }

    /// True when the window closes after the notification.
    pub fn closing(&self) -> (value: bool)
        ensures
            value == self.will_close(),
    {
        self.data
    }
}

/// The window that asks to be painted, by its address.
#[derive(Debug)]
pub struct PaintData {
    hwnd: usize,
}

impl PaintData {
    /// The address of the window.
    pub closed spec fn window(&self) -> usize {
        self.hwnd
    }

    /// The payload for the window at `hwnd`.
    pub fn new(hwnd: usize) -> (data: PaintData)
        ensures
            data.window() == hwnd,
    {
        PaintData { hwnd }
    }

    /// The address of the window.
    pub fn hwnd(&self) -> (hwnd: usize)
        ensures
            hwnd == self.window(),
    {
        self.hwnd
    }
}

/// The data that comes with a notification.
#[derive(Debug)]
pub enum EventData {
    /// The notification has no data.
    NoData,
    /// Whether the window closes after the notification.
    OnWindowClose(WindowCloseData),
    /// The text record of a tooltip.
    OnTooltipText(ToolTipTextData),
    /// The character that the user typed.
    OnChar(char),
    /// The code of the key that the user pressed or released.
    OnKey(u32),
    /// The window to paint.
    OnPaint(PaintData),
    /// How far the mouse wheel turned: to the right where positive, to the
    /// left where negative.
    OnMouseWheel(i32),
    /// The files that were dropped on the control.
    OnFileDrop(DropFiles),
}

impl EventData {
    /// The paint data. The data must be of that kind.
    pub fn on_paint(&self) -> (data: &PaintData)
        requires
            self is OnPaint,
        ensures
            *data == self->OnPaint_0,
    {
        match self {
            EventData::OnPaint(p) => p,
            _ => vstd::pervasive::unreached(),
        }
    }

    /// The tooltip record. The data must be of that kind.
    pub fn on_tooltip_text(&self) -> (data: &ToolTipTextData)
        requires
            self is OnTooltipText,
        ensures
            *data == self->OnTooltipText_0,
    {
        match self {
            EventData::OnTooltipText(d) => d,
            _ => vstd::pervasive::unreached(),
        }
    }

    /// The tooltip record, to write to. The data must be of that kind, and
    /// stays of that kind.
    pub fn on_tooltip_text_mut(&mut self) -> (data: &mut ToolTipTextData)
        requires
            *old(self) is OnTooltipText,
        ensures
            *data == (*old(self))->OnTooltipText_0,
            *final(self) == EventData::OnTooltipText(*final(data)),
    {
        match self {
            EventData::OnTooltipText(d) => d,
            _ => vstd::pervasive::unreached(),
        }
    }

    /// The dropped files. The data must be of that kind.
    pub fn on_file_drop(&self) -> (data: &DropFiles)
        requires
            self is OnFileDrop,
        ensures
            *data == self->OnFileDrop_0,
    {
        match self {
            EventData::OnFileDrop(d) => d,
            _ => vstd::pervasive::unreached(),
        }
    }

    /// The key code. The data must be of that kind.
    pub fn on_key(&self) -> (key: u32)
        requires
            self is OnKey,
        ensures
            key == self->OnKey_0,
    {
        match self {
            EventData::OnKey(key) => *key,
            _ => vstd::pervasive::unreached(),
        }
    }

    /// Ends the notification: the data is given up, and for dropped files
    /// that were not released yet the request that releases them comes back.
    /// Data of any other kind needs no release.
    pub fn finish(self) -> (request: Option<DropRequest>)
        ensures
            request == match self {
                EventData::OnFileDrop(d) => released(d@).1,
                _ => None::<DropRequest>,
            },
    {
        match self {
            EventData::OnFileDrop(d) => {
                let mut d = d;
                d.release()
            },
            _ => None,
        }
    }
}

} // verus!
