//! When the rows of the widget agree with the collection, and which
//! operations keep or restore that agreement.
//!
//! Every statement here is about the widget as `rendered` describes it. It
//! holds of the platform's widget as far as that description does.

use std::fmt::Display;
use vstd::prelude::*;
use crate::list_box::{
    count_of, displays, event_of, highlight_request, rebuilds, renders, replaces, selection_of, shows,
    text_step, TextActionView, TextEventView,
};
use crate::messages::{number_of, MessageView};
use crate::rendered::{
    after, after_all, after_any, answer, first_match_from, lemma_add_string,
    lemma_after_well_formed, lemma_first_match, well_formed, Rows,
};
use crate::text::{begins_with, utf16};

verus! {

/// The number of rows that a widget shows for `count` items: one for each,
/// as far as the widget has room.
pub open spec fn rows_for(count: nat) -> nat {
    if count <= isize::MAX {
        count
    } else {
        isize::MAX as nat
    }
}

/// True when the widget shows as many rows as the collection has items, as
/// far as it has room.
pub open spec fn same_count<D: Display>(items: Seq<D>, w: Rows) -> bool {
    w.rows.len() == rows_for(items.len())
}

/// True when the widget shows one row for each item, as far as it has room,
/// in the order of the items and with each item's displayed text.
pub open spec fn in_step<D: Display>(items: Seq<D>, w: Rows) -> bool {
    &&& same_count(items, w)
    &&& forall|i: int| 0 <= i < w.rows.len() ==> displays(&items[i], #[trigger] w.rows[i])
}

/// Requests that add one row for each item add as many rows as the widget
/// has room for. A widget that does not sort leaves the rows that were
/// there and the highlight as they are, and puts below them the displayed
/// texts of the items, in order.
pub proof fn lemma_render_appends<D: Display>(items: Seq<D>, messages: Seq<MessageView>, w: Rows)
    requires
        renders(items, messages),
        well_formed(w),
    ensures
        after_all(w, messages).rows.len() == rows_for(w.rows.len() + items.len()),
        after_all(w, messages).sorts == w.sorts,
        !w.sorts ==> after_all(w, messages).rows.take(w.rows.len() as int) == w.rows,
        !w.sorts ==> after_all(w, messages).cursor == w.cursor,
        !w.sorts ==> forall|i: int|
            0 <= i && w.rows.len() + i < after_all(w, messages).rows.len() ==> displays(
                &items[i],
                #[trigger] after_all(w, messages).rows[w.rows.len() + i],
            ),
    decreases messages.len(),
{
    if messages.len() == 0 {
        assert(w.rows.take(w.rows.len() as int) =~= w.rows);
    } else {
        let next = after(w, messages[0]);
        let rest_items = items.drop_first();
        let rest = messages.drop_first();
        assert(shows(&items[0], messages[0]));
        let text = messages[0]->AddString_0;
        lemma_after_well_formed(w, messages[0]);
        if w.rows.len() < isize::MAX {
            lemma_add_string(w, text);
        }
        assert(renders(rest_items, rest)) by {
            assert forall|i: int| 0 <= i < rest_items.len() implies shows(
                &rest_items[i],
                #[trigger] rest[i],
            ) by {
                assert(rest[i] == messages[i + 1]);
            }
        }
        lemma_render_appends(rest_items, rest, next);
        let end = after_all(w, messages);
        assert(end == after_all(next, rest));
        if !w.sorts {
            assert(end.rows.take(w.rows.len() as int) =~= w.rows) by {
                assert forall|j: int| 0 <= j < w.rows.len() implies end.rows[j] == w.rows[j] by {
                    assert(end.rows.take(next.rows.len() as int)[j] == next.rows[j]);
                }
            }
            assert forall|i: int| 0 <= i && w.rows.len() + i < end.rows.len() implies displays(
                &items[i],
                #[trigger] end.rows[w.rows.len() + i],
            ) by {
                if i == 0 {
                    assert(end.rows.take(next.rows.len() as int)[w.rows.len() as int]
                        == next.rows[w.rows.len() as int]);
                } else {
                    assert(rest_items[i - 1] == items[i]);
                    assert(end.rows[next.rows.len() + (i - 1)] == end.rows[w.rows.len() + i]);
                }
            }
        }
    }
}

/// After the requests of `sync`, whatever the widget showed before and
/// however the collection came to be, the widget shows as many rows as the
/// collection has items, `len` reads that number from the widget's reply,
/// and no row is highlighted. A widget that does not
/// sort shows, at the position of each item, the item's displayed text. Of
/// a widget that sorts only the number of its rows is stated.
pub proof fn law_sync_restores<D: Display>(items: Seq<D>, messages: Seq<MessageView>, w: Rows)
    requires
        rebuilds(items, messages),
    ensures
        same_count(items, after_all(w, messages)),
        count_of(number_of(answer(after_all(w, messages), MessageView::GetCount))) == rows_for(
            items.len(),
        ),
        after_all(w, messages).cursor == None::<usize>,
        !w.sorts ==> in_step(items, after_all(w, messages)),
{
    let cleared = after(w, messages[0]);
    let ready = after(cleared, messages[1]);
    let tail = messages.skip(2);
    let rest = messages.drop_first();
    assert(rest.drop_first() =~= tail);
    assert(rest[0] == messages[1]);
    assert(after_all(w, messages) == after_all(cleared, rest));
    assert(after_all(cleared, rest) == after_all(ready, tail));
    assert(ready.rows.len() == 0);
    lemma_render_appends(items, tail, ready);
    lemma_highlight_stays_off(ready, tail);
    let end = after_all(w, messages);
    if !w.sorts {
        assert forall|i: int| 0 <= i < end.rows.len() implies displays(
            &items[i],
            #[trigger] end.rows[i],
        ) by {
            assert(end.rows[i] == end.rows[ready.rows.len() + i]);
        }
    }
}

/// After the requests of `set_collection`, whatever the widget showed
/// before, it shows as many rows as the new collection has items, and no
/// row is highlighted. A widget that does not sort shows, at the position
/// of each new item, the item's displayed text.
pub proof fn law_set_collection_restores<D: Display>(
    items: Seq<D>,
    messages: Seq<MessageView>,
    w: Rows,
)
    requires
        replaces(items, messages),
    ensures
        same_count(items, after_all(w, messages)),
        after_all(w, messages).cursor == None::<usize>,
        !w.sorts ==> in_step(items, after_all(w, messages)),
{
    let cleared = after(w, messages[0]);
    let tail = messages.skip(1);
    assert(messages.drop_first() =~= tail);
    assert(after_all(w, messages) == after_all(cleared, tail));
    assert(cleared.rows.len() == 0);
    lemma_render_appends(items, tail, cleared);
    lemma_highlight_stays_off(cleared, tail);
    let end = after_all(w, messages);
    if !w.sorts {
        assert forall|i: int| 0 <= i < end.rows.len() implies displays(
            &items[i],
            #[trigger] end.rows[i],
        ) by {
            assert(end.rows[i] == end.rows[cleared.rows.len() + i]);
        }
    }
}

/// Where a widget that does not sort agrees with the collection, it still
/// agrees after `push` and its request. Where the widget sorts, it still
/// shows as many rows as there are items.
pub proof fn law_push_keeps_step<D: Display>(items: Seq<D>, w: Rows, item: D, message: MessageView)
    requires
        same_count(items, w),
        shows(&item, message),
    ensures
        same_count(items.push(item), after(w, message)),
        !w.sorts && in_step(items, w) ==> in_step(items.push(item), after(w, message)),
{
    let text = message->AddString_0;
    if w.rows.len() < isize::MAX {
        lemma_add_string(w, text);
    }
}

/// Where the widget agrees with the collection, it still agrees after
/// `remove` and its request: the row at the item's position is the one
/// deleted.
pub proof fn law_remove_keeps_step<D: Display>(items: Seq<D>, w: Rows, index: usize)
    requires
        in_step(items, w),
        index < items.len(),
        items.len() <= isize::MAX,
    ensures
        in_step(items.remove(index as int), after(w, MessageView::DeleteString(index))),
        after(w, MessageView::DeleteString(index)).rows == w.rows.remove(index as int),
{
}

/// True when none of `messages` moves the highlight to a row.
pub open spec fn selects_nothing(messages: Seq<MessageView>) -> bool {
    forall|i: int|
        0 <= i < messages.len() ==> !(#[trigger] messages[i] is SetCurSel)
            && !(messages[i] is SelectString)
}

/// A widget without a highlight has none after requests that select
/// nothing.
pub proof fn lemma_highlight_stays_off(w: Rows, messages: Seq<MessageView>)
    requires
        w.cursor is None,
        selects_nothing(messages),
    ensures
        after_all(w, messages).cursor is None,
    decreases messages.len(),
{
    if messages.len() > 0 {
        let rest = messages.drop_first();
        assert(!(messages[0] is SetCurSel) && !(messages[0] is SelectString));
        assert forall|i: int| 0 <= i < rest.len() implies !(#[trigger] rest[i] is SetCurSel)
            && !(rest[i] is SelectString) by {
            assert(rest[i] == messages[i + 1]);
        }
        lemma_highlight_stays_off(after(w, messages[0]), rest);
    }
}

/// A control whose widget was never told to select has no selection,
/// whatever rows were added and deleted since the widget was made.
pub proof fn law_selection_starts_empty(messages: Seq<MessageView>, sorts: bool)
    requires
        selects_nothing(messages),
    ensures
        selection_of(
            number_of(
                answer(
                    after_all(Rows { rows: Seq::empty(), cursor: None, sorts }, messages),
                    MessageView::GetCurSel,
                ),
            ),
        ) == None::<usize>,
{
    lemma_highlight_stays_off(Rows { rows: Seq::empty(), cursor: None, sorts }, messages);
}

/// After `set_selection` with the position of a row that the widget shows,
/// the selection is that position, and the rows are as they were.
pub proof fn law_selection_follows_set_selection(w: Rows, index: usize)
    requires
        well_formed(w),
        index < w.rows.len(),
    ensures
        selection_of(
            number_of(
                answer(after_any(w, highlight_request(Some(index))), MessageView::GetCurSel),
            ),
        ) == Some(index),
        after_any(w, highlight_request(Some(index))).rows == w.rows,
{
}

/// `set_selection` with a position below the widget's last row changes
/// nothing: the rows and the highlight stay as they were, whatever the
/// position is.
pub proof fn law_set_selection_out_of_range(w: Rows, index: usize)
    requires
        index >= w.rows.len(),
    ensures
        after_any(w, highlight_request(Some(index))) == w,
{
}

/// `set_selection` with no position removes the highlight and leaves the
/// rows as they were.
pub proof fn law_set_selection_none_clears(w: Rows)
    requires
        well_formed(w),
    ensures
        after_any(w, highlight_request(None)) == (Rows {
            rows: w.rows,
            cursor: None,
            sorts: w.sorts,
        }),
{
}

/// The reply to `set_selection_string` stands for the first row of the
/// widget that begins with the text, and that row is then highlighted.
/// Where no row begins with it, the reply stands for none and the widget
/// stays as it was. The letters `A` to `Z` are compared without regard to
/// case and every other character exactly; the platform's widget also takes
/// other letters, such as `É` and `é`, for the same.
pub proof fn law_prefix_selects_first_match(w: Rows, prefix: Seq<char>)
    requires
        well_formed(w),
    ensures
        match selection_of(number_of(answer(w, MessageView::SelectString(prefix)))) {
            Some(found) => {
                &&& found < w.rows.len()
                &&& begins_with(w.rows[found as int], prefix)
                &&& forall|j: int| 0 <= j < found ==> !begins_with(#[trigger] w.rows[j], prefix)
                &&& after(w, MessageView::SelectString(prefix)) == (Rows {
                    rows: w.rows,
                    cursor: Some(found),
                    sorts: w.sorts,
                })
            },
            None => {
                &&& forall|j: int|
                    0 <= j < w.rows.len() ==> !begins_with(#[trigger] w.rows[j], prefix)
                &&& after(w, MessageView::SelectString(prefix)) == w
            },
        },
{
    lemma_first_match(w.rows, prefix, 0);
    let found = first_match_from(w.rows, prefix, 0);
    if found < w.rows.len() {
        assert(selection_of(found as isize) == Some(found as usize));
    }
}

/// The action reached from `action` when the widget `w` answers each
/// request and at most `steps` requests are made.
pub open spec fn reading(w: Rows, action: TextActionView, steps: nat) -> TextActionView
    decreases steps,
{
    if steps == 0 {
        action
    } else {
        match action {
            TextActionView::Send(m) => reading(
                after(w, m),
                text_step(event_of(m, answer(w, m))),
                (steps - 1) as nat,
            ),
            TextActionView::Finish(_) => action,
        }
    }
}

/// The text of the highlighted row of `w`, where a row is highlighted and
/// the length of its text is one that a reply can carry.
pub open spec fn highlighted_text(w: Rows) -> Option<Seq<char>> {
    match w.cursor {
        Some(c) => if utf16(w.rows[c as int]).len() <= isize::MAX {
            Some(w.rows[c as int])
        } else {
            None
        },
        None => None,
    }
}

/// Reading the selection's text takes three requests at most and ends with
/// the text that the widget shows in its highlighted row, or with nothing
/// where no row is highlighted. The collection plays no part in it.
pub proof fn law_reading_gives_highlighted_text(w: Rows)
    requires
        well_formed(w),
    ensures
        reading(w, text_step(TextEventView::Begin), 3) == TextActionView::Finish(
            highlighted_text(w),
        ),
{
    reveal_with_fuel(reading, 4);
}

} // verus!
