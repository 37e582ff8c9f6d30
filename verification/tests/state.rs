use ravel_tui::block::{block, styled, BorderType};
use ravel_tui::geometry::{Borders, Rect};
use ravel_tui::layout::{spacer, LayoutState, Spacer};
use ravel_tui::modal::layer;
use ravel_tui::text::{display, text, StaticStrState, StringState};
use ravel_tui::throbber::ThrobberBuilderState;
use ravel_tui::{BuildCx, OptionState, RebuildCx, UiState};
use ratatui::style::Style;

#[test]
fn ui_state_builds_then_rebuilds() {
    let mut ui: UiState<Vec<u32>> = UiState::new();
    assert!(ui.view_state.is_none());
    ui.advance(1u32, |b: u32| vec![b], |b: u32, mut s: Vec<u32>| {
        s.push(b);
        s
    });
    assert_eq!(ui.view_state, Some(vec![1]));
    ui.advance(2u32, |b: u32| vec![b], |b: u32, mut s: Vec<u32>| {
        s.push(b);
        s
    });
    assert_eq!(ui.view_state, Some(vec![1, 2]));
    let d: UiState<u8> = UiState::default();
    assert!(d.view_state.is_none());
}

#[test]
fn option_state_builds_rebuilds_and_drops() {
    let area = Rect::new(0, 0, 5, 5);
    let mut st = OptionState::build_with(Some(3u32), area, |b: u32, _r: Rect| b * 10);
    assert_eq!(st.inner, Some(30));
    let other = Rect::new(1, 1, 2, 2);
    st.rebuild_with(Some(4u32), other, |b: u32, _r: Rect| b * 10, |b: u32, _r: Rect, s: u32| s + b);
    assert_eq!(st.inner, Some(34));
    assert_eq!(st.area, other);
    st.rebuild_with(None, area, |b: u32, _r: Rect| b * 10, |b: u32, _r: Rect, s: u32| s + b);
    assert_eq!(st.inner, None);
    st.rebuild_with(Some(5u32), area, |b: u32, _r: Rect| b * 10, |b: u32, _r: Rect, s: u32| s + b);
    assert_eq!(st.inner, Some(50));
    let none: OptionState<u32> = OptionState::build_with(None::<u32>, area, |b: u32, _r: Rect| b);
    assert_eq!(none.inner, None);
    assert_eq!(none.area, area);
}

#[test]
fn contexts_carry_their_area() {
    let a = Rect::new(1, 2, 3, 4);
    let b = Rect::new(5, 6, 7, 8);
    assert_eq!(BuildCx::new(a).area, a);
    assert_eq!(BuildCx::new(a).with_area(b).area, b);
    assert_eq!(RebuildCx::new(a).with_area(b).area, b);
    assert_eq!(RebuildCx::new(a).as_build_cx(), BuildCx::new(a));
}

#[test]
fn throbber_ticks_and_wraps() {
    let mut t = ThrobberBuilderState::new("wait".to_string(), Style::default(), Style::default());
    assert_eq!(t.index, 0);
    t.tick();
    assert_eq!(t.index, 1);
    t.index = i8::MAX;
    t.tick();
    assert_eq!(t.index, 0);
}

#[test]
fn throbber_returns_after_128_ticks() {
    let mut t = ThrobberBuilderState::new(String::new(), Style::default(), Style::default());
    t.index = 5;
    for _ in 0..128 {
        t.tick();
        assert!(t.index >= 0);
    }
    assert_eq!(t.index, 5);
}

#[test]
fn throbber_rebuild_advances_and_takes_label() {
    let mut t = ThrobberBuilderState::new("a".to_string(), Style::default(), Style::default());
    t.rebuild("b".to_string(), Style::default(), Style::default());
    assert_eq!(t.index, 1);
    assert_eq!(t.label, "b");
}

#[test]
fn block_builder_settings() {
    let b = block(0u8).title("T".to_string()).borders(Borders::none()).border_type(BorderType::Thick);
    assert_eq!(b.title, Some("T".to_string()));
    assert_eq!(b.borders, Borders::none());
    assert_eq!(b.border_type, BorderType::Thick);
    assert_eq!(block(0u8).border_type, BorderType::Rounded);
    assert_eq!(block(0u8).borders, Borders::all());
}

#[test]
fn block_state_and_rebuild() {
    let st = block(1u8).build(Rect::new(0, 0, 10, 4), |b: u8, r: Rect| (b, r));
    assert_eq!(st.outer_area, Rect::new(0, 0, 10, 4));
    assert_eq!(st.inner_area, Rect::new(1, 1, 8, 2));
    assert_eq!(st.body, (1u8, Rect::new(1, 1, 8, 2)));
    let mut st = st;
    let body = block(2u8).borders(Borders::none()).rebuild(Rect::new(3, 3, 5, 5), &mut st);
    assert_eq!(body, 2u8);
    assert_eq!(st.inner_area, Rect::new(3, 3, 5, 5));
    assert_eq!(st.borders, Borders::none());
}

#[test]
fn styled_keeps_body() {
    let s = styled(Style::default(), 9u8);
    assert_eq!(s.body, 9u8);
}

#[test]
fn layer_builds_both_on_same_area() {
    let area = Rect::new(0, 0, 8, 8);
    let st = layer(1u8, 2u8).build(area, |b: u8, r: Rect| (b, r), |o: u8, r: Rect| (o, r));
    assert_eq!(st.base, (1, area));
    assert_eq!(st.overlay, (2, area));
    assert_eq!(st.area, area);
    let mut st = st;
    let other = Rect::new(1, 1, 1, 1);
    let (b, o) = layer(3u8, 4u8).rebuild(other, &mut st);
    assert_eq!((b, o), (3, 4));
    assert_eq!(st.area, other);
}

#[test]
fn layout_state_area_lookup() {
    let st = LayoutState { children: (), areas: vec![Rect::new(0, 0, 1, 1)] };
    assert_eq!(st.area_for(0), Some(Rect::new(0, 0, 1, 1)));
    assert_eq!(st.area_for(1), None);
}

#[test]
fn text_build_and_rebuild() {
    let t = text("hello".to_string()).wrap();
    let mut st = t.build();
    assert_eq!(st.content, "hello");
    assert!(st.wrap);
    text("bye".to_string()).rebuild(&mut st);
    assert_eq!(st.content, "bye");
    assert!(!st.wrap);
}

#[test]
fn string_states() {
    let mut s = StaticStrState::build("a");
    s.rebuild("b");
    assert_eq!(s.content, "b");
    let mut o = StringState::build("x".to_string());
    o.rebuild("y".to_string());
    assert_eq!(o.content, "y");
}

#[test]
fn display_formats_value() {
    let st = display(42).build();
    assert_eq!(st.content, "42");
    let mut st = st;
    display("abc").style(Style::default()).rebuild(&mut st);
    assert_eq!(st.content, "abc");
}

#[test]
fn spacer_is_a_spacer() {
    let _s: Spacer = spacer();
}
