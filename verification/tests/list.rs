use ravel_tui::geometry::Borders;
use ravel_tui::list::{
    clamp_selection, initial_selection, render_items_with_selection, ListBuilder,
    ListBuilderState, ListSelection,
};
use ratatui::style::Style;

fn builder<'a>(items: &'a [&'a str]) -> ListBuilder<'a, &'a str, impl Fn(&&'a str, usize, bool) -> String> {
    ListBuilder {
        items,
        render_item: |item: &&str, i: usize, selected: bool| {
            format!("{}{}:{}", if selected { ">" } else { " " }, i, item)
        },
        block: None,
        highlight_style: Style::default(),
    }
}

#[test]
fn build_selects_first_item() {
    let items = ["a", "b", "c"];
    let st = builder(&items).build();
    assert_eq!(st.selected(), Some(0));
    assert_eq!(st.list_state.offset, 0);
    assert_eq!(st.items, vec![">0:a", " 1:b", " 2:c"]);
}

#[test]
fn build_of_empty_list_selects_nothing() {
    let items: [&str; 0] = [];
    let st = builder(&items).build();
    assert_eq!(st.selected(), None);
    assert!(st.items.is_empty());
}

#[test]
fn rebuild_clamps_selection_past_end() {
    let items = ["a", "b", "c"];
    let mut st = builder(&items).build();
    st.select(Some(2));
    st.list_state.offset = 1;
    let fewer = ["a", "b"];
    builder(&fewer).rebuild(&mut st);
    assert_eq!(st.selected(), Some(1));
    assert_eq!(st.list_state.offset, 1);
    assert_eq!(st.items, vec![" 0:a", ">1:b"]);
}

#[test]
fn rebuild_with_no_items_clears_selection_and_offset() {
    let items = ["a", "b", "c"];
    let mut st = builder(&items).build();
    st.select(Some(2));
    st.list_state.offset = 2;
    let none: [&str; 0] = [];
    builder(&none).rebuild(&mut st);
    assert_eq!(st.selected(), None);
    assert_eq!(st.list_state.offset, 0);
}

#[test]
fn rebuild_selects_first_item_when_items_appear() {
    let none: [&str; 0] = [];
    let mut st = builder(&none).build();
    let items = ["x"];
    builder(&items).rebuild(&mut st);
    assert_eq!(st.selected(), Some(0));
    assert_eq!(st.items, vec![">0:x"]);
}

#[test]
fn rebuild_keeps_selection_in_range_and_is_idempotent() {
    let items = ["a", "b", "c"];
    let mut st = builder(&items).build();
    st.select_next();
    builder(&items).rebuild(&mut st);
    assert_eq!(st.selected(), Some(1));
    builder(&items).rebuild(&mut st);
    assert_eq!(st.selected(), Some(1));
    assert_eq!(st.items, vec![" 0:a", ">1:b", " 2:c"]);
}

#[test]
fn select_next_and_previous() {
    let mut st: ListBuilderState<String> = ListBuilderState::new(Style::default());
    assert_eq!(st.selected(), Some(0));
    st.select_next();
    st.select_next();
    assert_eq!(st.selected(), Some(2));
    st.select_previous();
    assert_eq!(st.selected(), Some(1));
    st.select_previous();
    st.select_previous();
    assert_eq!(st.selected(), Some(0));
}

#[test]
fn select_previous_from_nothing_selects_last_index() {
    let mut st: ListBuilderState<String> = ListBuilderState::new(Style::default());
    st.select(None);
    st.select_previous();
    assert_eq!(st.selected(), Some(usize::MAX));
    st.select_next();
    assert_eq!(st.selected(), Some(usize::MAX));
}

#[test]
fn select_next_from_nothing_selects_first() {
    let mut st: ListBuilderState<String> = ListBuilderState::new(Style::default());
    st.select(None);
    st.select_next();
    assert_eq!(st.selected(), Some(0));
}

#[test]
fn select_none_resets_offset_and_some_keeps_it() {
    let mut st: ListBuilderState<String> = ListBuilderState::new(Style::default());
    st.list_state.offset = 4;
    st.select(Some(7));
    assert_eq!(st.list_state, ListSelection { offset: 4, selected: Some(7) });
    st.select(None);
    assert_eq!(st.list_state, ListSelection { offset: 0, selected: None });
}

#[test]
fn clamp_selection_cases() {
    let s = ListSelection { offset: 3, selected: Some(5) };
    assert_eq!(clamp_selection(s, 10), s);
    assert_eq!(clamp_selection(s, 5), ListSelection { offset: 3, selected: Some(4) });
    assert_eq!(clamp_selection(s, 0), ListSelection { offset: 0, selected: None });
    let none = ListSelection { offset: 3, selected: None };
    assert_eq!(clamp_selection(none, 2), ListSelection { offset: 3, selected: Some(0) });
    assert_eq!(clamp_selection(none, 0), none);
}

#[test]
fn initial_selection_cases() {
    assert_eq!(initial_selection(3), ListSelection { offset: 0, selected: Some(0) });
    assert_eq!(initial_selection(0), ListSelection { offset: 0, selected: None });
}

#[test]
fn render_flags_only_the_selected_item() {
    let items = [10, 20, 30];
    let r = render_items_with_selection(&items, &|x: &i32, i: usize, s: bool| (*x, i, s), Some(1));
    assert_eq!(r, vec![(10, 0, false), (20, 1, true), (30, 2, false)]);
    let r = render_items_with_selection(&items, &|x: &i32, i: usize, s: bool| (*x, i, s), None);
    assert!(r.iter().all(|t| !t.2));
}

#[test]
fn list_block_title_and_style() {
    let items = ["a"];
    let b = builder(&items).block_style(Style::default());
    assert!(b.block.is_none());
    let b = builder(&items).title("Items".to_string());
    let block = b.block.as_ref().unwrap();
    assert_eq!(block.title, Some("Items".to_string()));
    assert_eq!(block.borders, Borders::all());
    let b = builder(&items).block().title("T".to_string()).block_style(Style::default());
    assert_eq!(b.block.as_ref().unwrap().title, Some("T".to_string()));
}

#[test]
fn simple_item_parts_mark_the_selected_item() {
    let (p, t, h) = ravel_tui::list::simple_item_parts("Apples".to_string(), true);
    assert_eq!(p, "→ ");
    assert_eq!(t, "Apples");
    assert!(h);
    let (p, t, h) = ravel_tui::list::simple_item_parts("Pears".to_string(), false);
    assert_eq!(p, "  ");
    assert_eq!(t, "Pears");
    assert!(!h);
}
