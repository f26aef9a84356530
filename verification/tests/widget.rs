use widget_core::messages::{ListMessage, ListReply, LB_ERR, LB_ERRSPACE};
use widget_core::rendered::RenderedList;
use widget_core::text::{comes_before, fold, starts_with_ignoring_case, to_utf16};

fn widget_with(rows: &[&str]) -> RenderedList {
    let mut w = RenderedList::new(0);
    for r in rows {
        w.apply(&ListMessage::AddString(r.to_string()));
    }
    w
}

#[test]
fn opcodes_are_the_platforms() {
    assert_eq!(ListMessage::AddString(String::new()).opcode(), 0x0180);
    assert_eq!(ListMessage::DeleteString(0).opcode(), 0x0182);
    assert_eq!(ListMessage::ResetContent.opcode(), 0x0184);
    assert_eq!(ListMessage::SetCurSel(0).opcode(), 0x0186);
    assert_eq!(ListMessage::GetCurSel.opcode(), 0x0188);
    assert_eq!(ListMessage::GetText(0, 0).opcode(), 0x0189);
    assert_eq!(ListMessage::GetTextLen(0).opcode(), 0x018A);
    assert_eq!(ListMessage::GetCount.opcode(), 0x018B);
    assert_eq!(ListMessage::SelectString(String::new()).opcode(), 0x018C);
    assert_eq!(ListMessage::InitStorage(0, 0).opcode(), 0x01A8);
}

#[test]
fn wparam_is_the_integer_argument() {
    assert_eq!(ListMessage::AddString("x".to_string()).wparam(), 0);
    assert_eq!(ListMessage::DeleteString(5).wparam(), 5);
    assert_eq!(ListMessage::SetCurSel(usize::MAX).wparam(), usize::MAX);
    assert_eq!(ListMessage::GetTextLen(6).wparam(), 6);
    assert_eq!(ListMessage::GetText(7, 20).wparam(), 7);
    assert_eq!(ListMessage::InitStorage(8, 80).wparam(), 8);
    assert_eq!(ListMessage::GetCount.wparam(), 0);
    assert_eq!(ListMessage::SelectString("x".to_string()).wparam(), usize::MAX);
}

#[test]
fn error_replies() {
    assert_eq!(LB_ERR, -1);
    assert_eq!(LB_ERRSPACE, -2);
    assert_eq!(ListReply::Number(12).number(), 12);
    assert_eq!(ListReply::Text("12".to_string()).number(), -1);
}

#[test]
fn new_widget_is_empty() {
    let mut w = RenderedList::new(0);
    assert_eq!(w.count(), 0);
    assert_eq!(w.cursor(), None);
    assert_eq!(w.apply(&ListMessage::GetCount), ListReply::Number(0));
    assert_eq!(w.apply(&ListMessage::GetCurSel), ListReply::Number(-1));
}

#[test]
fn add_string_appends_and_gives_the_position() {
    let mut w = RenderedList::new(0);
    assert_eq!(w.apply(&ListMessage::AddString("b".to_string())), ListReply::Number(0));
    assert_eq!(w.apply(&ListMessage::AddString("a".to_string())), ListReply::Number(1));
    assert_eq!(w.row(0), "b");
    assert_eq!(w.row(1), "a");
    assert_eq!(w.count(), 2);
}

#[test]
fn delete_string_moves_the_highlight_with_its_row() {
    let mut w = widget_with(&["a", "b", "c", "d"]);
    w.apply(&ListMessage::SetCurSel(2));
    assert_eq!(w.apply(&ListMessage::DeleteString(0)), ListReply::Number(3));
    assert_eq!(w.cursor(), Some(1));
    assert_eq!(w.row(1), "c");
    assert_eq!(w.apply(&ListMessage::DeleteString(2)), ListReply::Number(2));
    assert_eq!(w.cursor(), Some(1));
    assert_eq!(w.apply(&ListMessage::DeleteString(1)), ListReply::Number(1));
    assert_eq!(w.cursor(), None);
    assert_eq!(w.row(0), "b");
}

#[test]
fn delete_string_out_of_range_is_refused() {
    let mut w = widget_with(&["a"]);
    assert_eq!(w.apply(&ListMessage::DeleteString(1)), ListReply::Number(-1));
    assert_eq!(w.count(), 1);
}

#[test]
fn init_storage_changes_nothing() {
    let mut w = widget_with(&["a"]);
    assert_eq!(w.apply(&ListMessage::InitStorage(100, 1000)), ListReply::Number(100));
    assert_eq!(w.apply(&ListMessage::InitStorage(usize::MAX, 0)), ListReply::Number(-2));
    assert_eq!(w.count(), 1);
    assert_eq!(w.row(0), "a");
}

#[test]
fn text_length_counts_utf16_units() {
    let mut w = widget_with(&["abc", "\u{e9}t\u{e9}", "\u{1F600}!"]);
    assert_eq!(w.apply(&ListMessage::GetTextLen(0)), ListReply::Number(3));
    assert_eq!(w.apply(&ListMessage::GetTextLen(1)), ListReply::Number(3));
    assert_eq!(w.apply(&ListMessage::GetTextLen(2)), ListReply::Number(3));
    assert_eq!(w.apply(&ListMessage::GetTextLen(3)), ListReply::Number(-1));
}

#[test]
fn get_text_gives_the_row() {
    let mut w = widget_with(&["abc", "def"]);
    assert_eq!(w.apply(&ListMessage::GetText(1, 3)), ListReply::Text("def".to_string()));
    assert_eq!(w.apply(&ListMessage::GetText(2, 3)), ListReply::Number(-1));
}

#[test]
fn reset_content_removes_rows_and_highlight() {
    let mut w = widget_with(&["a", "b"]);
    w.apply(&ListMessage::SetCurSel(1));
    assert_eq!(w.apply(&ListMessage::ResetContent), ListReply::Number(0));
    assert_eq!(w.count(), 0);
    assert_eq!(w.cursor(), None);
}

#[test]
fn select_string_with_empty_prefix_takes_the_first_row() {
    let mut w = widget_with(&["x", "y"]);
    assert_eq!(w.apply(&ListMessage::SelectString(String::new())), ListReply::Number(0));
    let mut empty = RenderedList::new(0);
    assert_eq!(empty.apply(&ListMessage::SelectString(String::new())), ListReply::Number(-1));
}

#[test]
fn utf16_of_plain_and_astral_text() {
    assert_eq!(to_utf16(""), Vec::<u16>::new());
    assert_eq!(to_utf16("Az"), vec![0x41, 0x7A]);
    assert_eq!(to_utf16("\u{20AC}"), vec![0x20AC]);
    assert_eq!(to_utf16("\u{FFFF}"), vec![0xFFFF]);
    assert_eq!(to_utf16("\u{10000}"), vec![0xD800, 0xDC00]);
    assert_eq!(to_utf16("a\u{1F600}b"), vec![0x61, 0xD83D, 0xDE00, 0x62]);
    assert_eq!(to_utf16("\u{10FFFF}"), vec![0xDBFF, 0xDFFF]);
}

#[test]
fn utf16_agrees_with_the_standard_encoder() {
    for s in ["", "hello", "gr\u{fc}\u{df}e", "\u{65e5}\u{672c}\u{8a9e}", "\u{1F980}\u{1F600}x"] {
        assert_eq!(to_utf16(s), s.encode_utf16().collect::<Vec<u16>>());
    }
}

#[test]
fn fold_lowers_ascii_capitals_only() {
    assert_eq!(fold('A'), 'a' as u32);
    assert_eq!(fold('Z'), 'z' as u32);
    assert_eq!(fold('a'), 'a' as u32);
    assert_eq!(fold('@'), '@' as u32);
    assert_eq!(fold('['), '[' as u32);
    assert_eq!(fold('\u{c9}'), 0xC9);
    assert_eq!(fold('5'), '5' as u32);
}

#[test]
fn prefix_test_ignores_ascii_case() {
    assert!(starts_with_ignoring_case("Apple", "ap"));
    assert!(starts_with_ignoring_case("apple", "APPLE"));
    assert!(starts_with_ignoring_case("apple", ""));
    assert!(!starts_with_ignoring_case("apple", "apples"));
    assert!(!starts_with_ignoring_case("Banana", "ap"));
    assert!(!starts_with_ignoring_case("\u{e9}t\u{e9}", "\u{c9}"));
    assert!(starts_with_ignoring_case("\u{e9}t\u{e9}", "\u{e9}T"));
}

#[test]
fn order_of_a_sorting_list() {
    assert!(comes_before("apple", "banana"));
    assert!(!comes_before("banana", "apple"));
    assert!(comes_before("Apple", "banana"));
    assert!(comes_before("apple", "Banana"));
    assert!(comes_before("app", "apple"));
    assert!(!comes_before("apple", "app"));
    assert!(!comes_before("apple", "APPLE"));
    assert!(!comes_before("APPLE", "apple"));
    assert!(comes_before("", "a"));
    assert!(!comes_before("", ""));
    assert!(!comes_before("a", ""));
    assert!(comes_before("z", "\u{e9}"));
}

#[test]
fn sorting_widget_puts_each_row_in_its_place() {
    let mut w = RenderedList::new(0x0002);
    assert!(w.sorts());
    assert_eq!(w.apply(&ListMessage::AddString("m".to_string())), ListReply::Number(0));
    assert_eq!(w.apply(&ListMessage::AddString("z".to_string())), ListReply::Number(1));
    assert_eq!(w.apply(&ListMessage::AddString("a".to_string())), ListReply::Number(0));
    assert_eq!(w.apply(&ListMessage::AddString("M".to_string())), ListReply::Number(2));
    assert_eq!(w.count(), 4);
    assert_eq!(w.row(0), "a");
    assert_eq!(w.row(1), "m");
    assert_eq!(w.row(2), "M");
    assert_eq!(w.row(3), "z");
}

#[test]
fn sorting_widget_moves_the_highlight_with_its_row() {
    let mut w = RenderedList::new(0x0002);
    w.apply(&ListMessage::AddString("m".to_string()));
    w.apply(&ListMessage::SetCurSel(0));
    w.apply(&ListMessage::AddString("a".to_string()));
    assert_eq!(w.cursor(), Some(1));
    assert_eq!(w.row(1), "m");
    w.apply(&ListMessage::AddString("z".to_string()));
    assert_eq!(w.cursor(), Some(1));
}

#[test]
fn style_without_the_sort_bit_keeps_insertion_order() {
    let mut w = RenderedList::new(0x40A0_0041);
    assert!(!w.sorts());
    w.apply(&ListMessage::AddString("z".to_string()));
    w.apply(&ListMessage::AddString("a".to_string()));
    assert_eq!(w.row(0), "z");
    assert_eq!(w.row(1), "a");
}
