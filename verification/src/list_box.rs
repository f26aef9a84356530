//! A list box: an ordered collection of displayable items on the host side,
//! and the requests that keep the rows of the native widget in step with it.
//!
//! The control never touches the widget itself. Each operation hands back
//! the requests to send, and each query takes the widget's reply.

use std::fmt::Display;
use vstd::prelude::*;
use vstd::string::to_string_from_display_ensures;
use crate::handle::{ControlHandle, Font};
use crate::messages::{
    view_of, views, ListMessage, ListReply, MessageView, ReplyView, LB_ERR,
};
use crate::styles::{
    LBS_HASSTRINGS, LBS_NOTIFY, LBS_SORT, WS_BORDER, WS_CHILD, WS_VISIBLE, WS_VSCROLL,
};

verus! {

/// True when `text` is what displaying `item` gave.
pub open spec fn displays<D: Display>(item: &D, text: Seq<char>) -> bool {
    exists|s: String| s@ == text && #[trigger] to_string_from_display_ensures::<D>(item, s)
}

/// True when `m` asks to add a row with the displayed text of `item`.
pub open spec fn shows<D: Display>(item: &D, m: MessageView) -> bool {
    match m {
        MessageView::AddString(t) => displays(item, t),
        _ => false,
    }
}

/// True when `messages` add one row for each of `items`, in order, with its
/// displayed text.
pub open spec fn renders<D: Display>(items: Seq<D>, messages: Seq<MessageView>) -> bool {
    &&& messages.len() == items.len()
    &&& forall|i: int| 0 <= i < items.len() ==> shows(&items[i], #[trigger] messages[i])
}

/// The bytes of text storage asked for `count` rows: ten for each, or as
/// many as can be asked for.
pub open spec fn storage_bytes(count: usize) -> usize {
    if 10 * count <= usize::MAX {
        (10 * count) as usize
    } else {
        usize::MAX
    }
}

/// What has come back so far while the text of the highlighted row is read.
#[derive(Debug, PartialEq, Eq)]
pub enum TextEvent {
    /// Nothing was asked yet.
    Begin,
    /// The reply to the question for the highlighted row.
    Selected(isize),
    /// The reply to the question for the length of the text of `row`.
    Measured { row: usize, length: isize },
    /// The text of `row`, as the widget gave it.
    Copied { row: usize, text: String },
}

/// What to do next while the text of the highlighted row is read.
#[derive(Debug, PartialEq, Eq)]
pub enum TextAction {
    /// Send this request and come back with the reply.
    Send(ListMessage),
    /// The reading is over, with this result.
    Finish(Option<String>),
}

/// The next action with its text as a sequence of characters.
pub enum TextActionView {
    Send(MessageView),
    Finish(Option<Seq<char>>),
}

impl View for TextAction {
    type V = TextActionView;

    open spec fn view(&self) -> TextActionView {
        match *self {
            TextAction::Send(m) => TextActionView::Send(m@),
            TextAction::Finish(Some(s)) => TextActionView::Finish(Some(s@)),
            TextAction::Finish(None) => TextActionView::Finish(None),
        }
    }
}

/// An event with its text as a sequence of characters.
pub enum TextEventView {
    Begin,
    Selected(isize),
    Measured { row: usize, length: isize },
    Copied { row: usize, text: Seq<char> },
}

impl View for TextEvent {
    type V = TextEventView;

    open spec fn view(&self) -> TextEventView {
        match *self {
            TextEvent::Begin => TextEventView::Begin,
            TextEvent::Selected(n) => TextEventView::Selected(n),
            TextEvent::Measured { row, length } => TextEventView::Measured { row, length },
            TextEvent::Copied { row, text } => TextEventView::Copied { row, text: text@ },
        }
    }
}

/// The event that the widget's reply to `asked` makes. A reply that does
/// not fit the question counts as the widget's refusal.
pub open spec fn event_of(asked: MessageView, reply: ReplyView) -> TextEventView {
    match (asked, reply) {
        (MessageView::GetCurSel, ReplyView::Number(n)) => TextEventView::Selected(n),
        (MessageView::GetTextLen(row), ReplyView::Number(n)) => TextEventView::Measured {
            row,
            length: n,
        },
        (MessageView::GetText(row, _), ReplyView::Text(t)) => TextEventView::Copied {
            row,
            text: t,
        },
        _ => TextEventView::Selected(LB_ERR),
    }
}

impl TextEvent {
    /// The event that the widget's reply to `asked` makes.
    pub fn from_reply(asked: &ListMessage, reply: ListReply) -> (event: TextEvent)
        ensures
            event@ == event_of(asked@, reply@),
    {
        match (asked, reply) {
            (ListMessage::GetCurSel, ListReply::Number(n)) => TextEvent::Selected(n),
            (ListMessage::GetTextLen(row), ListReply::Number(n)) => TextEvent::Measured {
                row: *row,
                length: n,
            },
            (ListMessage::GetText(row, _), ListReply::Text(t)) => TextEvent::Copied {
                row: *row,
                text: t,
            },
            _ => TextEvent::Selected(LB_ERR),
        }
    }
}

/// The action that follows each event of the reading: ask for the
/// highlighted row, then for the length of its text, then for the text,
/// into a buffer one unit longer than the text, for the terminator. A
/// negative reply ends the reading without a text.
pub open spec fn text_step(event: TextEventView) -> TextActionView {
    match event {
        TextEventView::Begin => TextActionView::Send(MessageView::GetCurSel),
        TextEventView::Selected(index) => if index < 0 {
            TextActionView::Finish(None)
        } else {
            TextActionView::Send(MessageView::GetTextLen(index as usize))
        },
        TextEventView::Measured { row, length } => if length < 0 {
            TextActionView::Finish(None)
        } else {
            TextActionView::Send(MessageView::GetText(row, (length + 1) as usize))
        },
        TextEventView::Copied { row, text } => TextActionView::Finish(Some(text)),
    }
}

/// The position that a reply to a question for the highlighted row stands
/// for: none where the reply is negative.
pub open spec fn selection_of(reply: isize) -> Option<usize> {
    if reply < 0 {
        None
    } else {
        Some(reply as usize)
    }
}

/// The request of `set_selection`. With no position it removes the
/// highlight. With a position it highlights that row, and there is none for
/// `usize::MAX`: no widget has a row there, and sent as a position that
/// number would remove the highlight.
pub open spec fn highlight_request(index: Option<usize>) -> Option<MessageView> {
    match index {
        None => Some(MessageView::SetCurSel(usize::MAX)),
        Some(i) => if i == usize::MAX {
            None
        } else {
            Some(MessageView::SetCurSel(i))
        },
    }
}

/// The row count that a reply stands for: the reply's bits read as an
/// unsigned number.
pub open spec fn count_of(reply: isize) -> int {
    if reply >= 0 {
        reply as int
    } else {
        reply + usize::MAX + 1
    }
}

/// A list box control.
#[derive(Debug)]
pub struct ListBox<D: Display + Default> {
    /// The native window of the control, once it is attached to one.
    pub handle: ControlHandle,
    /// The items on the host side. A change made here reaches the widget
    /// with the next `sync`.
    pub collection: Vec<D>,
}

impl<D: Display + Default> Default for ListBox<D> {
    fn default() -> (list: ListBox<D>)
        ensures
            list.handle == ControlHandle::NoHandle,
            list.items() == Seq::<D>::empty(),
    {
        ListBox { handle: ControlHandle::NoHandle, collection: Vec::new() }
    }
}

impl<D: Display + Default> ListBox<D> {
    /// The items of the host-side collection, in order.
    pub open spec fn items(&self) -> Seq<D> {
        self.collection@
    }

    /// True when the control is attached to a native window.
    pub open spec fn bound(&self) -> bool {
        self.handle is Hwnd
    }

    /// The address of the native window of a bound control.
    pub fn window(&self) -> (hwnd: usize)
        requires
            self.bound(),
        ensures
            self.handle == ControlHandle::Hwnd(hwnd),
    {
        match self.handle {
            ControlHandle::Hwnd(h) => h,
            ControlHandle::NoHandle => 0,
        }
    }

    /// Adds `item` at the end of the collection and gives the request that
    /// adds its displayed text to the widget. The collection is not sorted:
    /// a widget that sorts puts the row where its text belongs, and its rows
    /// and the collection then differ in order.
    pub fn push(&mut self, item: D) -> (message: ListMessage)
        requires
            old(self).bound(),
        ensures
            final(self).items() == old(self).items().push(item),
            final(self).handle == old(self).handle,
            shows(&item, message@),
    {
        let text: String = item.to_string();
        self.collection.push(item);
        ListMessage::AddString(text)
    }

    /// Removes the item at `index` from the collection and returns it, with
    /// the request that deletes the row at the same position. The row is
    /// found by position, not by text: where the widget shows its rows in
    /// another order than the collection, the row deleted is not the row of
    /// the item removed. Call `sync` first where that may be so.
    pub fn remove(&mut self, index: usize) -> (removed: (D, ListMessage))
        requires
            old(self).bound(),
            index < old(self).items().len(),
        ensures
            removed.0 == old(self).items()[index as int],
            removed.1@ == MessageView::DeleteString(index),
            final(self).items() == old(self).items().remove(index as int),
            final(self).handle == old(self).handle,
    {
        let item: D = self.collection.remove(index);
        (item, ListMessage::DeleteString(index))
    }

    /// The request that asks the widget for its highlighted row.
    pub fn selection_request(&self) -> (message: ListMessage)
        requires
            self.bound(),
        ensures
            message@ == MessageView::GetCurSel,
    {
        ListMessage::GetCurSel
    }

    /// The position of the highlighted row, from the widget's reply: none
    /// where the reply is negative.
    pub fn selection(&self, reply: isize) -> (index: Option<usize>)
        requires
            self.bound(),
        ensures
            index == selection_of(reply),
    {
        if reply < 0 {
            None
        } else {
            Some(reply as usize)
        }
    }

    /// One step of reading the text that the widget shows in its highlighted
    /// row: the action that follows `event`.
    pub fn selection_string(&self, event: TextEvent) -> (action: TextAction)
        requires
            self.bound(),
        ensures
            action@ == text_step(event@),
    {
        match event {
            TextEvent::Begin => TextAction::Send(ListMessage::GetCurSel),
            TextEvent::Selected(index) => {
                if index < 0 {
                    TextAction::Finish(None)
                } else {
                    TextAction::Send(ListMessage::GetTextLen(index as usize))
                }
            },
            TextEvent::Measured { row, length } => {
                if length < 0 {
                    TextAction::Finish(None)
                } else {
                    TextAction::Send(ListMessage::GetText(row, length as usize + 1))
                }
            },
            TextEvent::Copied { row, text } => TextAction::Finish(Some(text)),
        }
    }

    /// The request that highlights the row at `index`, or removes the
    /// highlight for `None`. A position below the widget's last row changes
    /// nothing; for `Some(usize::MAX)` there is nothing to send.
    pub fn set_selection(&self, index: Option<usize>) -> (message: Option<ListMessage>)
        requires
            self.bound(),
        ensures
            view_of(message) == highlight_request(index),
    {
        match index {
            None => Some(ListMessage::SetCurSel(usize::MAX)),
            Some(i) => {
                if i == usize::MAX {
                    None
                } else {
                    Some(ListMessage::SetCurSel(i))
                }
            },
        }
    }

    /// The request that highlights the first row beginning with `value`,
    /// whatever the case of its letters, searching from the top. The reply
    /// is read by `selection`.
    pub fn set_selection_string(&self, value: &str) -> (message: ListMessage)
        requires
            self.bound(),
        ensures
            message@ == MessageView::SelectString(value@),
    {
        ListMessage::SelectString(value.to_owned())
    }

    /// Appends to `messages` one request for each of `items`, in order, that
    /// adds its displayed text.
    fn render(items: &Vec<D>, messages: &mut Vec<ListMessage>)
        ensures
            final(messages)@.len() == old(messages)@.len() + items@.len(),
            final(messages)@.take(old(messages)@.len() as int) == old(messages)@,
            renders(items@, views(final(messages)@.skip(old(messages)@.len() as int))),
    {
        let ghost before = messages@;
        let n: usize = items.len();
        let mut i: usize = 0;
        while i < n
            invariant
                n == items@.len(),
                i <= n,
                messages@.len() == before.len() + i,
                messages@.take(before.len() as int) == before,
                forall|j: int|
                    0 <= j < i ==> shows(&items@[j], #[trigger] messages@[before.len() + j]@),
            decreases n - i,
        {
            let text: String = items[i].to_string();
            let ghost prev = messages@;
            messages.push(ListMessage::AddString(text));
            assert(messages@.take(before.len() as int) =~= prev.take(before.len() as int));
            assert forall|j: int| 0 <= j < i + 1 implies shows(
                &items@[j],
                #[trigger] messages@[before.len() + j]@,
            ) by {
                if j < i {
                    assert(messages@[before.len() + j] == prev[before.len() + j]);
                }
            }
            i = i + 1;
        }
        proof {
            let tail = views(messages@.skip(before.len() as int));
            assert forall|j: int| 0 <= j < items@.len() implies shows(
                &items@[j],
                #[trigger] tail[j],
            ) by {
                assert(tail[j] == messages@[before.len() + j]@);
            }
        }
    }

    /// The request that removes every row from the widget and leaves the
    /// collection alone.
    fn clear_inner(&self) -> (message: ListMessage)
        ensures
            message@ == MessageView::ResetContent,
    {
        ListMessage::ResetContent
    }

    /// The requests that rebuild the widget's rows from the collection:
    /// delete every row, make room for as many rows as there are items, then
    /// add the displayed text of each item in order.
    pub fn sync(&self) -> (messages: Vec<ListMessage>)
        requires
            self.bound(),
        ensures
            rebuilds(self.items(), views(messages@)),
    {
        let n: usize = self.collection.len();
        let bytes: usize = if n > usize::MAX / 10 {
            usize::MAX
        } else {
            10 * n
        };
        let mut messages: Vec<ListMessage> = Vec::new();
        messages.push(self.clear_inner());
        messages.push(ListMessage::InitStorage(n, bytes));
        Self::render(&self.collection, &mut messages);
        proof {
            assert(messages@.take(2)[0] == messages@[0]);
            assert(messages@.take(2)[1] == messages@[1]);
            assert(views(messages@).skip(2) =~= views(messages@.skip(2)));
        }
        messages
    }

    /// Puts `col` in the place of the collection and returns the collection
    /// that was held, with the requests that show `col` in the widget:
    /// delete every row, then add the displayed text of each new item.
    pub fn set_collection(&mut self, col: Vec<D>) -> (replaced: (Vec<D>, Vec<ListMessage>))
        requires
            old(self).bound(),
        ensures
            replaced.0@ == old(self).items(),
            final(self).items() == col@,
            final(self).handle == old(self).handle,
            replaces(col@, views(replaced.1@)),
    {
        let mut col = col;
        let mut messages: Vec<ListMessage> = Vec::new();
        messages.push(self.clear_inner());
        Self::render(&col, &mut messages);
        proof {
            assert(messages@.take(1)[0] == messages@[0]);
            assert(views(messages@).skip(1) =~= views(messages@.skip(1)));
        }
        std::mem::swap(&mut self.collection, &mut col);
        (col, messages)
    }

    /// The request that asks the widget for its number of rows.
    pub fn len_request(&self) -> (message: ListMessage)
        requires
            self.bound(),
        ensures
            message@ == MessageView::GetCount,
    {
        ListMessage::GetCount
    }

    /// The number of rows in the widget, from its reply. This is not the
    /// length of the collection.
    pub fn len(&self, reply: isize) -> (count: usize)
        requires
            self.bound(),
        ensures
            count == count_of(reply),
    {
        if reply >= 0 {
            reply as usize
        } else {
            let below: usize = (-(reply + 1)) as usize;
            usize::MAX - below
        }
    }

    /// The font of the control, from the address that the window gave: none
    /// where the address is null.
    pub fn font(&self, font_handle: usize) -> (font: Option<Font>)
        requires
            self.bound(),
        ensures
            font == if font_handle == 0 {
                None::<Font>
            } else {
                Some(Font { handle: font_handle })
            },
    {
        if font_handle == 0 {
            None
        } else {
            Some(Font { handle: font_handle })
        }
    }

    /// Shared access to the collection.
    pub fn collection(&self) -> (items: &Vec<D>)
        ensures
            items@ == self.items(),
    {
        &self.collection
    }

    /// Exclusive access to the collection. What is changed through it does
    /// not reach the widget before the next `sync`.
    pub fn collection_mut(&mut self) -> (items: &mut Vec<D>)
        ensures
            items@ == old(self).items(),
            final(self).items() == final(items)@,
            final(self).handle == old(self).handle,
    {
        &mut self.collection
    }

    /// The name of the native window class of the control.
    pub fn class_name(&self) -> (name: Option<&'static str>)
        ensures
            name matches Some(s) && s@ == "ListBox"@,
    {
        Some("ListBox")
    }

    /// The styles that a list box has unless told otherwise, and its
    /// extended styles.
    pub fn flags(&self) -> (styles: (u32, u32))
        ensures
            styles == (WS_VISIBLE, 0u32),
    {
        (WS_VISIBLE, 0)
    }

    /// The styles that every list box has: it keeps the text of its rows
    /// and sorts them, reports clicks, has a border and a vertical scroll
    /// bar, and is a child window.
    pub fn forced_flags(&self) -> (styles: u32)
        ensures
            styles == LBS_SORT | LBS_HASSTRINGS | LBS_NOTIFY | WS_BORDER | WS_CHILD | WS_VSCROLL,
            styles == 0x40A0_0043u32,
            styles & LBS_SORT != 0,
    {
        assert(0x0002u32 | 0x0040u32 | 0x0001u32 | 0x0080_0000u32 | 0x4000_0000u32
            | 0x0020_0000u32 == 0x40A0_0043u32) by (bit_vector);
        assert(0x40A0_0043u32 & 0x0002u32 != 0) by (bit_vector);
        LBS_SORT | LBS_HASSTRINGS | LBS_NOTIFY | WS_BORDER | WS_CHILD | WS_VSCROLL
    }
}

/// True when `messages` are the requests of a full rebuild for `items`.
pub open spec fn rebuilds<D: Display>(items: Seq<D>, messages: Seq<MessageView>) -> bool {
    &&& messages.len() == items.len() + 2
    &&& messages[0] == MessageView::ResetContent
    &&& messages[1] == MessageView::InitStorage(
        items.len() as usize,
        storage_bytes(items.len() as usize),
    )
    &&& renders(items, messages.skip(2))
}

/// True when `messages` are the requests that show `items` in place of what
/// the widget held.
pub open spec fn replaces<D: Display>(items: Seq<D>, messages: Seq<MessageView>) -> bool {
    &&& messages.len() == items.len() + 1
    &&& messages[0] == MessageView::ResetContent
    &&& renders(items, messages.skip(1))
}

} // verus!
