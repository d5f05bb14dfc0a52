use typing_test_tui::typing_test::selection::{Selection, SelectionItem};

fn tree() -> Selection<&'static str> {
    Selection::new(vec![
        SelectionItem::new("quote"),
        SelectionItem::new("words").children(vec![SelectionItem::new("10"), SelectionItem::new("25")]),
        SelectionItem::new("time"),
    ])
}

fn selected(s: &Selection<&'static str>) -> Option<&'static str> {
    s.get_selected_item().and_then(|i| i.item().copied())
}

#[test]
fn selection_moves() {
    let mut s = tree();
    assert_eq!(selected(&s), Some("quote"));
    s.left();
    assert_eq!(selected(&s), Some("time"));
    s.right();
    assert_eq!(selected(&s), Some("quote"));
    s.right();
    assert_eq!(selected(&s), Some("words"));
    s.down();
    assert_eq!(selected(&s), Some("10"));
    s.down();
    assert_eq!(selected(&s), Some("10"));
    s.right();
    assert_eq!(selected(&s), Some("25"));
    s.right();
    assert_eq!(selected(&s), Some("10"));
    s.left();
    assert_eq!(selected(&s), Some("25"));
    s.up();
    assert_eq!(selected(&s), Some("words"));
    s.up();
    assert_eq!(selected(&s), Some("words"));
    // Moving up recorded the child that was left: down returns to it.
    s.down();
    assert_eq!(selected(&s), Some("25"));
    s.up();
    s.left();
    s.right();
    s.down();
    assert_eq!(selected(&s), Some("25"));
    // Without children, down leaves the selection.
    s.up();
    s.right();
    s.down();
    assert_eq!(selected(&s), Some("time"));
}

#[test]
fn empty_selection() {
    let mut s: Selection<u8> = Selection::new(vec![]);
    assert!(s.get_selected_item().is_none());
    s.left();
    s.right();
    s.down();
    s.up();
    assert!(s.get_selected_item().is_none());
}

#[test]
fn selection_item_builders() {
    let item = SelectionItem::new(7u8).children(vec![SelectionItem::new(1u8)]);
    assert_eq!(item.item(), Some(&7));
    assert_eq!(item.num_children(), 1);
    let empty: SelectionItem<u8> = SelectionItem::default();
    assert_eq!(empty.item(), None);
    assert_eq!(empty.num_children(), 0);
}
