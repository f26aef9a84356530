//! The requests that a list control makes of its native widget, and the
//! widget's replies.

use vstd::prelude::*;

verus! {

/// The reply of a widget that could not do what was asked.
pub const LB_ERR: isize = -1;

/// The reply of a widget that has no room for another row.
pub const LB_ERRSPACE: isize = -2;

/// One request to the native list widget. Text travels as host text; it is
/// put into the platform's encoding where the request is sent.
#[derive(Debug, PartialEq, Eq)]
pub enum ListMessage {
    /// Add a row with this text.
    AddString(String),
    /// Delete the row at this position.
    DeleteString(usize),
    /// Delete every row.
    ResetContent,
    /// Make room for this many rows and this many bytes of text.
    InitStorage(usize, usize),
    /// Highlight the row at this position. A position below the last row
    /// changes nothing, but for `usize::MAX`, which removes the highlight.
    SetCurSel(usize),
    /// Ask for the position of the highlighted row.
    GetCurSel,
    /// Ask for the length, in UTF-16 units, of the text of a row.
    GetTextLen(usize),
    /// Ask for the text of a row, into a buffer of as many UTF-16 units as
    /// the second value says, the terminator included.
    GetText(usize, usize),
    /// Ask for the number of rows.
    GetCount,
    /// Highlight the first row that begins with this text.
    SelectString(String),
}

/// A request with its text as a sequence of characters.
pub enum MessageView {
    AddString(Seq<char>),
    DeleteString(usize),
    ResetContent,
    InitStorage(usize, usize),
    SetCurSel(usize),
    GetCurSel,
    GetTextLen(usize),
    GetText(usize, usize),
    GetCount,
    SelectString(Seq<char>),
}

impl View for ListMessage {
    type V = MessageView;

    open spec fn view(&self) -> MessageView {
        match *self {
            ListMessage::AddString(s) => MessageView::AddString(s@),
            ListMessage::DeleteString(i) => MessageView::DeleteString(i),
            ListMessage::ResetContent => MessageView::ResetContent,
            ListMessage::InitStorage(n, b) => MessageView::InitStorage(n, b),
            ListMessage::SetCurSel(i) => MessageView::SetCurSel(i),
            ListMessage::GetCurSel => MessageView::GetCurSel,
            ListMessage::GetTextLen(i) => MessageView::GetTextLen(i),
            ListMessage::GetText(i, n) => MessageView::GetText(i, n),
            ListMessage::GetCount => MessageView::GetCount,
            ListMessage::SelectString(s) => MessageView::SelectString(s@),
        }
    }
}

/// The number under which the platform knows a request.
pub open spec fn opcode_of(m: MessageView) -> u32 {
    match m {
        MessageView::AddString(_) => 0x0180,
        MessageView::DeleteString(_) => 0x0182,
        MessageView::ResetContent => 0x0184,
        MessageView::SetCurSel(_) => 0x0186,
        MessageView::GetCurSel => 0x0188,
        MessageView::GetText(_, _) => 0x0189,
        MessageView::GetTextLen(_) => 0x018A,
        MessageView::GetCount => 0x018B,
        MessageView::SelectString(_) => 0x018C,
        MessageView::InitStorage(_, _) => 0x01A8,
    }
}

/// The integer argument that goes with a request; zero where it has none.
/// A search for a prefix names the row before the first one to look at, and
/// `usize::MAX` there makes it start at the top.
pub open spec fn wparam_of(m: MessageView) -> usize {
    match m {
        MessageView::SelectString(_) => usize::MAX,
        MessageView::DeleteString(i) => i,
        MessageView::SetCurSel(i) => i,
        MessageView::GetTextLen(i) => i,
        MessageView::GetText(i, _) => i,
        MessageView::InitStorage(n, _) => n,
        _ => 0,
    }
}

impl ListMessage {
    /// The number under which the platform knows this request.
    pub fn opcode(&self) -> (code: u32)
        ensures
            code == opcode_of(self@),
    {
        match self {
            ListMessage::AddString(_) => 0x0180,
            ListMessage::DeleteString(_) => 0x0182,
            ListMessage::ResetContent => 0x0184,
            ListMessage::SetCurSel(_) => 0x0186,
            ListMessage::GetCurSel => 0x0188,
            ListMessage::GetText(_, _) => 0x0189,
            ListMessage::GetTextLen(_) => 0x018A,
            ListMessage::GetCount => 0x018B,
            ListMessage::SelectString(_) => 0x018C,
            ListMessage::InitStorage(_, _) => 0x01A8,
        }
    }

    /// The integer argument that goes with this request.
    pub fn wparam(&self) -> (w: usize)
        ensures
            w == wparam_of(self@),
    {
        match self {
            ListMessage::DeleteString(i) => *i,
            ListMessage::SetCurSel(i) => *i,
            ListMessage::GetTextLen(i) => *i,
            ListMessage::GetText(i, _) => *i,
            ListMessage::InitStorage(n, _) => *n,
            ListMessage::SelectString(_) => usize::MAX,
            _ => 0,
        }
    }
}

/// What the widget answers: a number, or the text of a row.
#[derive(Debug, PartialEq, Eq)]
pub enum ListReply {
    Number(isize),
    Text(String),
}

/// A reply with its text as a sequence of characters.
pub enum ReplyView {
    Number(isize),
    Text(Seq<char>),
}

impl View for ListReply {
    type V = ReplyView;

    open spec fn view(&self) -> ReplyView {
        match *self {
            ListReply::Number(n) => ReplyView::Number(n),
            ListReply::Text(s) => ReplyView::Text(s@),
        }
    }
}

/// The number that a reply carries; a reply that carries text stands for no
/// number and counts as the widget's refusal.
pub open spec fn number_of(reply: ReplyView) -> isize {
    match reply {
        ReplyView::Number(v) => v,
        ReplyView::Text(_) => LB_ERR,
    }
}

impl ListReply {
    /// The number that the reply carries, or the widget's refusal where it
    /// carries text.
    pub fn number(&self) -> (n: isize)
        ensures
            n == number_of(self@),
    {
        match self {
            ListReply::Number(v) => *v,
            ListReply::Text(_) => LB_ERR,
        }
    }
}

/// The view of a request that may be left out.
pub open spec fn view_of(message: Option<ListMessage>) -> Option<MessageView> {
    match message {
        Some(m) => Some(m@),
        None => None,
    }
}

/// The views of a sequence of requests, in order.
pub open spec fn views(messages: Seq<ListMessage>) -> Seq<MessageView> {
    Seq::new(messages.len(), |i: int| messages[i]@)
}

} // verus!
