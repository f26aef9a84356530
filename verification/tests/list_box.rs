use std::fmt;

use widget_core::handle::{ControlHandle, Font};
use widget_core::list_box::{ListBox, TextAction, TextEvent};
use widget_core::messages::{ListMessage, ListReply};
use widget_core::rendered::RenderedList;

#[derive(Debug, Default, PartialEq, Clone)]
struct Fruit {
    name: &'static str,
    crates: u32,
}

impl fmt::Display for Fruit {
    fn fmt(&self, f: &mut fmt::Formatter<'_>) -> fmt::Result {
        f.write_str(&format!("{} x{}", self.name, self.crates))
    }
}

fn bound_list<D: fmt::Display + Default>() -> ListBox<D> {
    let mut list: ListBox<D> = ListBox::default();
    list.handle = ControlHandle::Hwnd(0x5010);
    list
}

fn send_all(widget: &mut RenderedList, messages: &[ListMessage]) {
    for m in messages {
        widget.apply(m);
    }
}

fn rows_of(widget: &RenderedList) -> Vec<String> {
    (0..widget.count()).map(|i| widget.row(i).clone()).collect()
}

fn strings(items: &[&str]) -> Vec<String> {
    items.iter().map(|s| s.to_string()).collect()
}

fn read_selection_text(list: &ListBox<String>, widget: &mut RenderedList) -> (Option<String>, usize) {
    let mut sent = 0;
    let mut action = list.selection_string(TextEvent::Begin);
    loop {
        match action {
            TextAction::Send(m) => {
                sent += 1;
                let reply = widget.apply(&m);
                action = list.selection_string(TextEvent::from_reply(&m, reply));
            }
            TextAction::Finish(text) => return (text, sent),
        }
    }
}

#[test]
fn default_list_is_unbound_and_empty() {
    let list: ListBox<String> = ListBox::default();
    assert_eq!(list.handle, ControlHandle::NoHandle);
    assert!(list.handle.blank());
    assert_eq!(list.handle.hwnd(), None);
    assert!(list.collection().is_empty());
}

#[test]
fn bound_list_gives_its_window() {
    let list: ListBox<String> = bound_list();
    assert!(!list.handle.blank());
    assert_eq!(list.handle.hwnd(), Some(0x5010));
    assert_eq!(list.window(), 0x5010);
}

#[test]
fn push_appends_and_asks_for_one_row() {
    let mut list: ListBox<Fruit> = bound_list();
    let m = list.push(Fruit { name: "pear", crates: 3 });
    assert_eq!(m, ListMessage::AddString("pear x3".to_string()));
    let m = list.push(Fruit { name: "fig", crates: 12 });
    assert_eq!(m, ListMessage::AddString("fig x12".to_string()));
    assert_eq!(
        *list.collection(),
        vec![Fruit { name: "pear", crates: 3 }, Fruit { name: "fig", crates: 12 }]
    );
}

#[test]
fn remove_middle_of_three() {
    let mut list: ListBox<String> = bound_list();
    let mut widget = RenderedList::new(0);
    for s in ["a", "b", "c"] {
        let m = list.push(s.to_string());
        widget.apply(&m);
    }
    let (item, message) = list.remove(1);
    assert_eq!(item, "b");
    assert_eq!(message, ListMessage::DeleteString(1));
    assert_eq!(*list.collection(), strings(&["a", "c"]));
    let reply = widget.apply(&message);
    assert_eq!(reply, ListReply::Number(2));
    assert_eq!(rows_of(&widget), strings(&["a", "c"]));
}

#[test]
fn remove_first_and_last() {
    let mut list: ListBox<String> = bound_list();
    list.set_collection(strings(&["x", "y", "z"]));
    let (last, m) = list.remove(2);
    assert_eq!((last.as_str(), m), ("z", ListMessage::DeleteString(2)));
    let (first, m) = list.remove(0);
    assert_eq!((first.as_str(), m), ("x", ListMessage::DeleteString(0)));
    assert_eq!(*list.collection(), strings(&["y"]));
}

#[test]
fn selection_is_none_until_set() {
    let mut list: ListBox<String> = bound_list();
    let mut widget = RenderedList::new(0);
    let m = list.push("only".to_string());
    widget.apply(&m);
    let reply = widget.apply(&list.selection_request());
    assert_eq!(reply, ListReply::Number(-1));
    assert_eq!(list.selection(reply.number()), None);
    widget.apply(&list.set_selection(Some(0)).unwrap());
    let reply = widget.apply(&list.selection_request());
    assert_eq!(list.selection(reply.number()), Some(0));
}

#[test]
fn selection_reads_the_reply() {
    let list: ListBox<String> = bound_list();
    assert_eq!(list.selection_request(), ListMessage::GetCurSel);
    assert_eq!(list.selection(0), Some(0));
    assert_eq!(list.selection(41), Some(41));
    assert_eq!(list.selection(-1), None);
    assert_eq!(list.selection(-2), None);
    assert_eq!(list.selection(isize::MAX), Some(isize::MAX as usize));
}

#[test]
fn set_selection_out_of_range_changes_nothing() {
    let mut list: ListBox<String> = bound_list();
    let mut widget = RenderedList::new(0);
    let (_, messages) = list.set_collection(strings(&["a", "b"]));
    send_all(&mut widget, &messages);
    widget.apply(&list.set_selection(Some(1)).unwrap());
    assert_eq!(widget.cursor(), Some(1));
    let m = list.set_selection(Some(2)).unwrap();
    assert_eq!(m, ListMessage::SetCurSel(2));
    assert_eq!(widget.apply(&m), ListReply::Number(-1));
    assert_eq!(widget.cursor(), Some(1));
    assert_eq!(rows_of(&widget), strings(&["a", "b"]));
}

#[test]
fn set_selection_with_the_largest_position_changes_nothing() {
    let mut list: ListBox<String> = bound_list();
    let mut widget = RenderedList::new(0);
    let (_, messages) = list.set_collection(strings(&["a", "b"]));
    send_all(&mut widget, &messages);
    widget.apply(&list.set_selection(Some(1)).unwrap());
    let m = list.set_selection(Some(usize::MAX));
    assert_eq!(m, None);
    let reply = widget.apply(&list.selection_request());
    assert_eq!(list.selection(reply.number()), Some(1));
    let m = list.set_selection(Some(usize::MAX - 1)).unwrap();
    assert_eq!(m, ListMessage::SetCurSel(usize::MAX - 1));
    widget.apply(&m);
    let reply = widget.apply(&list.selection_request());
    assert_eq!(list.selection(reply.number()), Some(1));
    assert_eq!(rows_of(&widget), strings(&["a", "b"]));
    assert_eq!(*list.collection(), strings(&["a", "b"]));
}

#[test]
fn set_selection_none_clears_the_highlight() {
    let mut list: ListBox<String> = bound_list();
    let mut widget = RenderedList::new(0);
    let (_, messages) = list.set_collection(strings(&["a", "b"]));
    send_all(&mut widget, &messages);
    widget.apply(&list.set_selection(Some(0)).unwrap());
    let m = list.set_selection(None).unwrap();
    assert_eq!(m, ListMessage::SetCurSel(usize::MAX));
    widget.apply(&m);
    assert_eq!(widget.cursor(), None);
    let reply = widget.apply(&list.selection_request());
    assert_eq!(list.selection(reply.number()), None);
}

#[test]
fn set_selection_string_finds_first_prefix_match() {
    let mut list: ListBox<String> = bound_list();
    let mut widget = RenderedList::new(0);
    let (_, messages) = list.set_collection(strings(&["Apple", "apricot", "Banana"]));
    send_all(&mut widget, &messages);
    let m = list.set_selection_string("ap");
    assert_eq!(m, ListMessage::SelectString("ap".to_string()));
    let reply = widget.apply(&m);
    assert_eq!(list.selection(reply.number()), Some(0));
    assert_eq!(widget.cursor(), Some(0));
}

#[test]
fn set_selection_string_ignores_case_both_ways() {
    let mut list: ListBox<String> = bound_list();
    let mut widget = RenderedList::new(0);
    let (_, messages) = list.set_collection(strings(&["Apple", "apricot", "Banana"]));
    send_all(&mut widget, &messages);
    let reply = widget.apply(&list.set_selection_string("APR"));
    assert_eq!(list.selection(reply.number()), Some(1));
    let reply = widget.apply(&list.set_selection_string("banana"));
    assert_eq!(list.selection(reply.number()), Some(2));
    assert_eq!(widget.cursor(), Some(2));
}

#[test]
fn set_selection_string_without_match_keeps_the_highlight() {
    let mut list: ListBox<String> = bound_list();
    let mut widget = RenderedList::new(0);
    let (_, messages) = list.set_collection(strings(&["Apple", "apricot", "Banana"]));
    send_all(&mut widget, &messages);
    widget.apply(&list.set_selection(Some(2)).unwrap());
    let reply = widget.apply(&list.set_selection_string("cherry"));
    assert_eq!(reply, ListReply::Number(-1));
    assert_eq!(list.selection(reply.number()), None);
    assert_eq!(widget.cursor(), Some(2));
    let reply = widget.apply(&list.set_selection_string("apples"));
    assert_eq!(list.selection(reply.number()), None);
}

#[test]
fn sync_rebuilds_every_row() {
    let mut list: ListBox<Fruit> = bound_list();
    list.collection_mut().push(Fruit { name: "kiwi", crates: 1 });
    list.collection_mut().push(Fruit { name: "lime", crates: 2 });
    list.collection_mut().push(Fruit { name: "plum", crates: 30 });
    let messages = list.sync();
    assert_eq!(
        messages,
        vec![
            ListMessage::ResetContent,
            ListMessage::InitStorage(3, 30),
            ListMessage::AddString("kiwi x1".to_string()),
            ListMessage::AddString("lime x2".to_string()),
            ListMessage::AddString("plum x30".to_string()),
        ]
    );
}

#[test]
fn sync_of_empty_collection_clears_the_widget() {
    let list: ListBox<String> = bound_list();
    let mut widget = RenderedList::new(0);
    widget.apply(&ListMessage::AddString("stale".to_string()));
    widget.apply(&ListMessage::SetCurSel(0));
    let messages = list.sync();
    assert_eq!(messages, vec![ListMessage::ResetContent, ListMessage::InitStorage(0, 0)]);
    send_all(&mut widget, &messages);
    assert_eq!(widget.count(), 0);
    assert_eq!(widget.cursor(), None);
}

#[test]
fn sync_restores_agreement_after_any_changes() {
    let mut list: ListBox<Fruit> = bound_list();
    let mut widget = RenderedList::new(0);
    let m = list.push(Fruit { name: "a", crates: 1 });
    widget.apply(&m);
    list.push(Fruit { name: "b", crates: 2 });
    let (_, messages) = list.set_collection(vec![
        Fruit { name: "c", crates: 3 },
        Fruit { name: "d", crates: 4 },
        Fruit { name: "e", crates: 5 },
    ]);
    send_all(&mut widget, &messages[..2]);
    list.remove(0);
    list.collection_mut()[0].crates = 40;
    list.collection_mut().insert(0, Fruit { name: "z", crates: 0 });
    assert_ne!(widget.count(), list.collection().len());
    send_all(&mut widget, &list.sync());
    assert_eq!(widget.count(), list.collection().len());
    let shown = rows_of(&widget);
    for (i, item) in list.collection().iter().enumerate() {
        assert_eq!(shown[i], format!("{}", item));
    }
    assert_eq!(shown, strings(&["z x0", "d x40", "e x5"]));
}

#[test]
fn push_and_remove_keep_agreement() {
    let mut list: ListBox<String> = bound_list();
    let mut widget = RenderedList::new(0);
    for s in ["one", "two", "three", "four"] {
        let m = list.push(s.to_string());
        assert_eq!(widget.apply(&m), ListReply::Number(list.collection().len() as isize - 1));
        assert_eq!(rows_of(&widget), *list.collection());
    }
    for i in [2usize, 0, 1, 0] {
        let (_, m) = list.remove(i);
        widget.apply(&m);
        assert_eq!(rows_of(&widget), *list.collection());
    }
    assert_eq!(widget.count(), 0);
}

#[test]
fn set_collection_returns_what_was_held() {
    let mut list: ListBox<String> = bound_list();
    list.push("old one".to_string());
    list.push("old two".to_string());
    let (old, messages) = list.set_collection(strings(&["new"]));
    assert_eq!(old, strings(&["old one", "old two"]));
    assert_eq!(*list.collection(), strings(&["new"]));
    assert_eq!(
        messages,
        vec![ListMessage::ResetContent, ListMessage::AddString("new".to_string())]
    );
    let (old, messages) = list.set_collection(Vec::new());
    assert_eq!(old, strings(&["new"]));
    assert!(list.collection().is_empty());
    assert_eq!(messages, vec![ListMessage::ResetContent]);
}

#[test]
fn set_collection_shows_the_new_items() {
    let mut list: ListBox<String> = bound_list();
    let mut widget = RenderedList::new(0);
    let m = list.push("gone".to_string());
    widget.apply(&m);
    widget.apply(&list.set_selection(Some(0)).unwrap());
    let (_, messages) = list.set_collection(strings(&["p", "q"]));
    send_all(&mut widget, &messages);
    assert_eq!(rows_of(&widget), strings(&["p", "q"]));
    assert_eq!(widget.cursor(), None);
}

#[test]
fn len_is_the_widgets_count() {
    let mut list: ListBox<String> = bound_list();
    let mut widget = RenderedList::new(0);
    let m = list.push("shown".to_string());
    widget.apply(&m);
    list.collection_mut().push("hidden".to_string());
    assert_eq!(list.len_request(), ListMessage::GetCount);
    let reply = widget.apply(&list.len_request());
    assert_eq!(list.len(reply.number()), 1);
    assert_eq!(list.collection().len(), 2);
}

#[test]
fn len_reads_the_reply_as_unsigned() {
    let list: ListBox<String> = bound_list();
    assert_eq!(list.len(0), 0);
    assert_eq!(list.len(7), 7);
    assert_eq!(list.len(-1), usize::MAX);
    assert_eq!(list.len(-2), usize::MAX - 1);
    assert_eq!(list.len(isize::MIN), isize::MAX as usize + 1);
}

#[test]
fn selection_string_reads_the_widgets_row() {
    let mut list: ListBox<String> = bound_list();
    let mut widget = RenderedList::new(0);
    let (_, messages) = list.set_collection(strings(&["first", "second"]));
    send_all(&mut widget, &messages);
    widget.apply(&list.set_selection(Some(1)).unwrap());
    list.collection_mut()[1] = "changed".to_string();
    let (text, sent) = read_selection_text(&list, &mut widget);
    assert_eq!(text, Some("second".to_string()));
    assert_eq!(sent, 3);
}

#[test]
fn selection_string_without_highlight_is_none() {
    let mut list: ListBox<String> = bound_list();
    let mut widget = RenderedList::new(0);
    let (_, messages) = list.set_collection(strings(&["first", "second"]));
    send_all(&mut widget, &messages);
    let (text, sent) = read_selection_text(&list, &mut widget);
    assert_eq!(text, None);
    assert_eq!(sent, 1);
}

#[test]
fn selection_string_steps() {
    let list: ListBox<String> = bound_list();
    assert_eq!(
        list.selection_string(TextEvent::Begin),
        TextAction::Send(ListMessage::GetCurSel)
    );
    assert_eq!(
        list.selection_string(TextEvent::Selected(4)),
        TextAction::Send(ListMessage::GetTextLen(4))
    );
    assert_eq!(list.selection_string(TextEvent::Selected(-1)), TextAction::Finish(None));
    assert_eq!(
        list.selection_string(TextEvent::Measured { row: 4, length: 9 }),
        TextAction::Send(ListMessage::GetText(4, 10))
    );
    assert_eq!(
        list.selection_string(TextEvent::Measured { row: 4, length: 0 }),
        TextAction::Send(ListMessage::GetText(4, 1))
    );
    assert_eq!(
        list.selection_string(TextEvent::Measured { row: 0, length: isize::MAX }),
        TextAction::Send(ListMessage::GetText(0, isize::MAX as usize + 1))
    );
    assert_eq!(
        list.selection_string(TextEvent::Measured { row: 4, length: -1 }),
        TextAction::Finish(None)
    );
    assert_eq!(
        list.selection_string(TextEvent::Copied { row: 4, text: "row text".to_string() }),
        TextAction::Finish(Some("row text".to_string()))
    );
}

#[test]
fn text_event_from_reply() {
    assert_eq!(
        TextEvent::from_reply(&ListMessage::GetCurSel, ListReply::Number(3)),
        TextEvent::Selected(3)
    );
    assert_eq!(
        TextEvent::from_reply(&ListMessage::GetTextLen(3), ListReply::Number(5)),
        TextEvent::Measured { row: 3, length: 5 }
    );
    assert_eq!(
        TextEvent::from_reply(&ListMessage::GetText(3, 5), ListReply::Text("hello".to_string())),
        TextEvent::Copied { row: 3, text: "hello".to_string() }
    );
    assert_eq!(
        TextEvent::from_reply(&ListMessage::GetText(3, 5), ListReply::Number(-1)),
        TextEvent::Selected(-1)
    );
    assert_eq!(
        TextEvent::from_reply(&ListMessage::GetCount, ListReply::Number(5)),
        TextEvent::Selected(-1)
    );
}

#[test]
fn font_is_none_for_null() {
    let list: ListBox<String> = bound_list();
    assert_eq!(list.font(0), None);
    assert_eq!(list.font(0xF0), Some(Font { handle: 0xF0 }));
}

#[test]
fn creation_metadata() {
    let list: ListBox<String> = ListBox::default();
    assert_eq!(list.class_name(), Some("ListBox"));
    assert_eq!(list.flags(), (0x1000_0000, 0));
    assert_eq!(list.forced_flags(), 0x40A0_0043);
    for style in [0x0002u32, 0x0040, 0x0001, 0x0080_0000, 0x4000_0000, 0x0020_0000] {
        assert_eq!(list.forced_flags() & style, style);
    }
}

#[test]
fn collection_mut_does_not_reach_the_widget() {
    let mut list: ListBox<String> = bound_list();
    let mut widget = RenderedList::new(0);
    let m = list.push("a".to_string());
    widget.apply(&m);
    list.collection_mut().clear();
    assert!(list.collection().is_empty());
    assert_eq!(rows_of(&widget), strings(&["a"]));
}

#[test]
fn widget_with_the_forced_styles_sorts() {
    let list: ListBox<String> = bound_list();
    assert!(RenderedList::new(list.forced_flags()).sorts());
    assert!(!RenderedList::new(list.flags().0).sorts());
}

#[test]
fn push_into_a_sorting_widget_leaves_the_collection_in_its_order() {
    let mut list: ListBox<String> = bound_list();
    let mut widget = RenderedList::new(list.forced_flags());
    for s in ["pear", "Apple", "fig"] {
        let m = list.push(s.to_string());
        widget.apply(&m);
    }
    assert_eq!(*list.collection(), strings(&["pear", "Apple", "fig"]));
    assert_eq!(rows_of(&widget), strings(&["Apple", "fig", "pear"]));
}

#[test]
fn sync_of_a_sorting_widget_restores_the_count() {
    let mut list: ListBox<String> = bound_list();
    let mut widget = RenderedList::new(list.forced_flags());
    widget.apply(&ListMessage::AddString("stale".to_string()));
    list.collection_mut().extend(strings(&["b", "c", "a", "b"]));
    send_all(&mut widget, &list.sync());
    assert_eq!(widget.count(), list.collection().len());
    assert_eq!(rows_of(&widget), strings(&["a", "b", "b", "c"]));
    let reply = widget.apply(&list.len_request());
    assert_eq!(list.len(reply.number()), list.collection().len());
}

#[test]
fn sync_keeps_duplicates_and_order() {
    let mut list: ListBox<String> = bound_list();
    let mut widget = RenderedList::new(0);
    list.collection_mut().extend(strings(&["b", "c", "a", "b"]));
    send_all(&mut widget, &list.sync());
    assert_eq!(rows_of(&widget), strings(&["b", "c", "a", "b"]));
    let reply = widget.apply(&list.len_request());
    assert_eq!(list.len(reply.number()), list.collection().len());
}
