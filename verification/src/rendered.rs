//! The rows that a native list widget shows, and how each request changes
//! them. The control relies on this behaviour of the widget and on no more.
//!
//! This is a model of the platform's widget, not the widget. It compares
//! and orders texts by the codes of their characters, with only the letters
//! `A` to `Z` folded, where the platform goes by the user's language.

use vstd::prelude::*;
use crate::messages::{ListMessage, ListReply, MessageView, ReplyView, LB_ERR, LB_ERRSPACE};
use crate::styles::LBS_SORT;
use crate::text::{
    begins_with, comes_before, precedes, starts_with_ignoring_case, texts, to_utf16, utf16,
};

verus! {

/// What a widget shows: its rows from top to bottom, the position of the
/// highlighted row, if one is highlighted, and whether the widget was made
/// with the style that sorts a new row in among the others.
pub struct Rows {
    pub rows: Seq<Seq<char>>,
    pub cursor: Option<usize>,
    pub sorts: bool,
}

/// True when a widget made with `style` sorts its rows.
pub open spec fn sorts_with(style: u32) -> bool {
    style & LBS_SORT != 0
}

/// The position at which a sorting widget puts a new row with `text`: that
/// of the first row, at or after `from`, that `text` comes before; below the
/// last row where there is none.
pub open spec fn place_from(rows: Seq<Seq<char>>, text: Seq<char>, from: int) -> int
    decreases rows.len() - from,
{
    if from < 0 || from >= rows.len() {
        rows.len() as int
    } else if precedes(text, rows[from]) {
        from
    } else {
        place_from(rows, text, from + 1)
    }
}

/// The place of a new row lies between `from` and the end of the rows.
pub proof fn lemma_place(rows: Seq<Seq<char>>, text: Seq<char>, from: int)
    requires
        0 <= from <= rows.len(),
    ensures
        from <= place_from(rows, text, from) <= rows.len(),
    decreases rows.len() - from,
{
    if from < rows.len() && !precedes(text, rows[from]) {
        lemma_place(rows, text, from + 1);
    }
}

/// The position at which a widget puts a new row with `text`: its sorted
/// place where the widget sorts, below the last row where it does not.
pub open spec fn place(w: Rows, text: Seq<char>) -> int {
    if w.sorts {
        place_from(w.rows, text, 0)
    } else {
        w.rows.len() as int
    }
}

/// The highlight after a row is put in at `index`: it moves down with the
/// rows from there on.
pub open spec fn cursor_after_insert(cursor: Option<usize>, index: int) -> Option<usize> {
    match cursor {
        Some(c) => if c >= index {
            Some((c + 1) as usize)
        } else {
            Some(c)
        },
        None => None,
    }
}

/// The position of the first row, at or after `from`, that begins with
/// `prefix`; the number of rows where there is none.
pub open spec fn first_match_from(rows: Seq<Seq<char>>, prefix: Seq<char>, from: int) -> int
    decreases rows.len() - from,
{
    if from < 0 || from >= rows.len() {
        rows.len() as int
    } else if begins_with(rows[from], prefix) {
        from
    } else {
        first_match_from(rows, prefix, from + 1)
    }
}

/// The row found by `first_match_from` begins with the prefix, and no row
/// between `from` and it does.
pub proof fn lemma_first_match(rows: Seq<Seq<char>>, prefix: Seq<char>, from: int)
    requires
        0 <= from <= rows.len(),
    ensures
        from <= first_match_from(rows, prefix, from) <= rows.len(),
        first_match_from(rows, prefix, from) < rows.len() ==> begins_with(
            rows[first_match_from(rows, prefix, from)],
            prefix,
        ),
        forall|j: int|
            from <= j < first_match_from(rows, prefix, from) ==> !begins_with(
                #[trigger] rows[j],
                prefix,
            ),
    decreases rows.len() - from,
{
    if from < rows.len() && !begins_with(rows[from], prefix) {
        lemma_first_match(rows, prefix, from + 1);
    }
}

/// True when the widget can take one more row.
pub open spec fn has_room(w: Rows) -> bool {
    w.rows.len() < isize::MAX
}

/// The highlight after the row at `index` is deleted: gone with its row, and
/// moved up with the rows below.
pub open spec fn cursor_after_delete(cursor: Option<usize>, index: usize) -> Option<usize> {
    match cursor {
        Some(c) => if c == index {
            None
        } else if c > index {
            Some((c - 1) as usize)
        } else {
            Some(c)
        },
        None => None,
    }
}

/// What the widget shows after a request. Where a prefix is looked for, or
/// a widget that sorts places a row, the letters `A` to `Z` count without
/// regard to case and every other character by its code; the platform's
/// widget also takes other letters, such as `É` and `é`, for the same.
pub open spec fn after(w: Rows, m: MessageView) -> Rows {
    match m {
        MessageView::AddString(t) => if !has_room(w) {
            w
        } else if w.sorts {
            Rows {
                rows: w.rows.insert(place(w, t), t),
                cursor: cursor_after_insert(w.cursor, place(w, t)),
                sorts: true,
            }
        } else {
            Rows { rows: w.rows.push(t), cursor: w.cursor, sorts: false }
        },
        MessageView::DeleteString(i) => if i < w.rows.len() {
            Rows {
                rows: w.rows.remove(i as int),
                cursor: cursor_after_delete(w.cursor, i),
                sorts: w.sorts,
            }
        } else {
            w
        },
        MessageView::ResetContent => Rows { rows: Seq::empty(), cursor: None, sorts: w.sorts },
        MessageView::SetCurSel(i) => if i < w.rows.len() {
            Rows { rows: w.rows, cursor: Some(i), sorts: w.sorts }
        } else if i == usize::MAX {
            Rows { rows: w.rows, cursor: None, sorts: w.sorts }
        } else {
            w
        },
        MessageView::SelectString(p) => if first_match_from(w.rows, p, 0) < w.rows.len() {
            Rows {
                rows: w.rows,
                cursor: Some(first_match_from(w.rows, p, 0) as usize),
                sorts: w.sorts,
            }
        } else {
            w
        },
        _ => w,
    }
}

/// What the widget answers to a request.
pub open spec fn answer(w: Rows, m: MessageView) -> ReplyView {
    match m {
        MessageView::AddString(t) => if has_room(w) {
            ReplyView::Number(place(w, t) as isize)
        } else {
            ReplyView::Number(LB_ERRSPACE)
        },
        MessageView::DeleteString(i) => if i < w.rows.len() {
            ReplyView::Number((w.rows.len() - 1) as isize)
        } else {
            ReplyView::Number(LB_ERR)
        },
        MessageView::ResetContent => ReplyView::Number(0),
        MessageView::InitStorage(n, _) => if n <= isize::MAX {
            ReplyView::Number(n as isize)
        } else {
            ReplyView::Number(LB_ERRSPACE)
        },
        MessageView::SetCurSel(i) => if i < w.rows.len() {
            ReplyView::Number(i as isize)
        } else {
            ReplyView::Number(LB_ERR)
        },
        MessageView::GetCurSel => match w.cursor {
            Some(c) => ReplyView::Number(c as isize),
            None => ReplyView::Number(LB_ERR),
        },
        MessageView::GetTextLen(i) => if i < w.rows.len() && utf16(w.rows[i as int]).len()
            <= isize::MAX {
            ReplyView::Number(utf16(w.rows[i as int]).len() as isize)
        } else {
            ReplyView::Number(LB_ERR)
        },
        MessageView::GetText(i, _) => if i < w.rows.len() {
            ReplyView::Text(w.rows[i as int])
        } else {
            ReplyView::Number(LB_ERR)
        },
        MessageView::GetCount => ReplyView::Number(w.rows.len() as isize),
        MessageView::SelectString(p) => if first_match_from(w.rows, p, 0) < w.rows.len() {
            ReplyView::Number(first_match_from(w.rows, p, 0) as isize)
        } else {
            ReplyView::Number(LB_ERR)
        },
    }
}

/// What the widget shows after a request that may be left out.
pub open spec fn after_any(w: Rows, m: Option<MessageView>) -> Rows {
    match m {
        Some(m) => after(w, m),
        None => w,
    }
}

/// What the widget shows after a sequence of requests, made in order.
pub open spec fn after_all(w: Rows, messages: Seq<MessageView>) -> Rows
    decreases messages.len(),
{
    if messages.len() == 0 {
        w
    } else {
        after_all(after(w, messages[0]), messages.drop_first())
    }
}

/// True when the highlight, if there is one, is on a row, and the number of
/// rows is one that a reply can carry.
pub open spec fn well_formed(w: Rows) -> bool {
    &&& w.rows.len() <= isize::MAX
    &&& match w.cursor {
        Some(c) => c < w.rows.len(),
        None => true,
    }
}

/// A request leaves a well-formed widget well formed.
pub proof fn lemma_after_well_formed(w: Rows, m: MessageView)
    requires
        well_formed(w),
    ensures
        well_formed(after(w, m)),
{
    match m {
        MessageView::SelectString(p) => {
            lemma_first_match(w.rows, p, 0);
        },
        MessageView::AddString(t) => {
            lemma_place(w.rows, t, 0);
        },
        _ => {},
    }
}

/// A widget with room has one row more after a row is added, whether it
/// sorts or not.
pub proof fn lemma_add_string(w: Rows, text: Seq<char>)
    requires
        has_room(w),
    ensures
        after(w, MessageView::AddString(text)).rows.len() == w.rows.len() + 1,
{
    lemma_place(w.rows, text, 0);
}

/// A list widget held in memory: it answers each request as `answer` says
/// and then shows what `after` says.
pub struct RenderedList {
    rows: Vec<String>,
    cursor: Option<usize>,
    sorts: bool,
}

impl View for RenderedList {
    type V = Rows;

    closed spec fn view(&self) -> Rows {
        Rows { rows: texts(self.rows@), cursor: self.cursor, sorts: self.sorts }
    }
}

impl RenderedList {
    /// A widget made with `style`, without rows and without a highlight. It
    /// sorts its rows where `style` holds the sort style.
    pub fn new(style: u32) -> (w: RenderedList)
        ensures
            w@ == (Rows { rows: Seq::empty(), cursor: None, sorts: sorts_with(style) }),
            style == 0 ==> !w@.sorts,
            well_formed(w@),
    {
        assert(0u32 & 0x0002u32 == 0) by (bit_vector);
        let w = RenderedList { rows: Vec::new(), cursor: None, sorts: style & LBS_SORT != 0 };
        assert(texts(w.rows@) =~= Seq::empty());
        w
    }

    /// True when the widget sorts its rows.
    pub fn sorts(&self) -> (b: bool)
        ensures
            b == self@.sorts,
    {
        self.sorts
    }

    /// The number of rows.
    pub fn count(&self) -> (n: usize)
        ensures
            n == self@.rows.len(),
    {
        self.rows.len()
    }

    /// The text of the row at `index`.
    pub fn row(&self, index: usize) -> (text: &String)
        requires
            index < self@.rows.len(),
        ensures
            text@ == self@.rows[index as int],
    {
        &self.rows[index]
    }

    /// The position of the highlighted row.
    pub fn cursor(&self) -> (c: Option<usize>)
        ensures
            c == self@.cursor,
    {
        self.cursor
    }

    /// The position of the first row that begins with `prefix`, or the
    /// number of rows where none does.
    fn find(&self, prefix: &str) -> (r: usize)
        ensures
            r == first_match_from(self@.rows, prefix@, 0),
            r <= self@.rows.len(),
    {
        let n: usize = self.rows.len();
        let mut i: usize = 0;
        while i < n
            invariant
                n == self.rows@.len(),
                i <= n,
                first_match_from(self@.rows, prefix@, 0) == first_match_from(
                    self@.rows,
                    prefix@,
                    i as int,
                ),
            decreases n - i,
        {
            if starts_with_ignoring_case(self.rows[i].as_str(), prefix) {
                return i;
            }
            i = i + 1;
        }
        i
    }

    /// The position at which the widget puts a new row with `text`.
    fn place(&self, text: &str) -> (r: usize)
        ensures
            r == place(self@, text@),
            r <= self@.rows.len(),
    {
        let n: usize = self.rows.len();
        if !self.sorts {
            return n;
        }
        let mut i: usize = 0;
        while i < n
            invariant
                self.sorts,
                n == self.rows@.len(),
                i <= n,
                place_from(self@.rows, text@, 0) == place_from(self@.rows, text@, i as int),
            decreases n - i,
        {
            if comes_before(text, self.rows[i].as_str()) {
                return i;
            }
            i = i + 1;
        }
        i
    }

    /// Carries out one request and gives the widget's reply.
    pub fn apply(&mut self, message: &ListMessage) -> (reply: ListReply)
        requires
            well_formed(old(self)@),
        ensures
            final(self)@ == after(old(self)@, message@),
            reply@ == answer(old(self)@, message@),
            well_formed(final(self)@),
    {
        proof {
            lemma_after_well_formed(self@, message@);
        }
        let n: usize = self.rows.len();
        match message {
            ListMessage::AddString(t) => {
                if n < isize::MAX as usize {
                    let at: usize = self.place(t.as_str());
                    self.rows.insert(at, t.clone());
                    assert(texts(self.rows@) =~= texts(old(self).rows@).insert(at as int, t@));
                    assert(texts(old(self).rows@).insert(n as int, t@) =~= texts(
                        old(self).rows@,
                    ).push(t@));
                    self.cursor = match self.cursor {
                        Some(c) => if c >= at {
                            Some(c + 1)
                        } else {
                            Some(c)
                        },
                        None => None,
                    };
                    ListReply::Number(at as isize)
                } else {
                    ListReply::Number(LB_ERRSPACE)
                }
            },
            ListMessage::DeleteString(i) => {
                if *i < n {
                    let _ = self.rows.remove(*i);
                    assert(texts(self.rows@) =~= texts(old(self).rows@).remove(*i as int));
                    self.cursor = match self.cursor {
                        Some(c) => if c == *i {
                            None
                        } else if c > *i {
                            Some(c - 1)
                        } else {
                            Some(c)
                        },
                        None => None,
                    };
                    ListReply::Number((n - 1) as isize)
                } else {
                    ListReply::Number(LB_ERR)
                }
            },
            ListMessage::ResetContent => {
                self.rows = Vec::new();
                self.cursor = None;
                assert(texts(self.rows@) =~= Seq::empty());
                ListReply::Number(0)
            },
            ListMessage::InitStorage(rows, _) => {
                if *rows <= isize::MAX as usize {
                    ListReply::Number(*rows as isize)
                } else {
                    ListReply::Number(LB_ERRSPACE)
                }
            },
            ListMessage::SetCurSel(i) => {
                if *i < n {
                    self.cursor = Some(*i);
                    ListReply::Number(*i as isize)
                } else {
                    if *i == usize::MAX {
                        self.cursor = None;
                    }
                    ListReply::Number(LB_ERR)
                }
            },
            ListMessage::GetCurSel => match self.cursor {
                Some(c) => ListReply::Number(c as isize),
                None => ListReply::Number(LB_ERR),
            },
            ListMessage::GetTextLen(i) => {
                if *i < n {
                    let units: usize = to_utf16(self.rows[*i].as_str()).len();
                    if units <= isize::MAX as usize {
                        ListReply::Number(units as isize)
                    } else {
                        ListReply::Number(LB_ERR)
                    }
                } else {
                    ListReply::Number(LB_ERR)
                }
            },
            ListMessage::GetText(i, _) => {
                if *i < n {
                    ListReply::Text(self.rows[*i].clone())
                } else {
                    ListReply::Number(LB_ERR)
                }
            },
            ListMessage::GetCount => ListReply::Number(n as isize),
            ListMessage::SelectString(p) => {
                let r: usize = self.find(p.as_str());
                if r < n {
                    self.cursor = Some(r);
                    ListReply::Number(r as isize)
                } else {
                    ListReply::Number(LB_ERR)
                }
            },
        }
    }
}

} // verus!
