use ravel_tui::block::{block, BorderType};
use ravel_tui::geometry::{
    centered_rect, centered_rect_fixed, fixed_centered_fits_check, percent_centered_fits_check,
    Borders, Constraint, LayoutDirection, Rect,
};
use ravel_tui::layout::{center, hstack, vstack};
use ravel_tui::modal::modal;

#[test]
fn centered_rect_takes_percentages_and_centres() {
    let r = centered_rect(50, 50, Rect::new(0, 0, 100, 50));
    assert_eq!(r, Rect::new(25, 12, 50, 25));
}

#[test]
fn centered_rect_rounds_sizes_down() {
    let r = centered_rect(60, 25, Rect::new(3, 4, 33, 10));
    // 33 * 60 / 100 = 19, 10 * 25 / 100 = 2
    assert_eq!(r, Rect::new(3 + 7, 4 + 4, 19, 2));
}

#[test]
fn centered_rect_full_percent_is_the_area() {
    let area = Rect::new(7, 9, 40, 20);
    assert_eq!(centered_rect(100, 100, area), area);
}

#[test]
fn centered_rect_fixed_clips_to_area() {
    let r = centered_rect_fixed(200, 3, Rect::new(10, 10, 80, 24));
    assert_eq!(r, Rect::new(10, 20, 80, 3));
}

#[test]
fn centered_rect_fixed_leaves_extra_cell_on_the_right() {
    let r = centered_rect_fixed(4, 4, Rect::new(0, 0, 11, 9));
    assert_eq!(r, Rect::new(3, 2, 4, 4));
    // three free cells on the left, four on the right
    assert_eq!(r.x - 0, 3);
    assert_eq!(11 - (r.x + r.width), 4);
}

#[test]
fn block_inner_area_with_all_borders() {
    let b = block(());
    assert_eq!(b.inner_area(Rect::new(0, 0, 10, 5)), Rect::new(1, 1, 8, 3));
}

#[test]
fn block_inner_area_without_borders_is_the_area() {
    let b = block(()).borders(Borders::none()).border_type(BorderType::Double);
    assert_eq!(b.inner_area(Rect::new(2, 3, 10, 5)), Rect::new(2, 3, 10, 5));
}

#[test]
fn block_inner_area_with_top_and_left_border() {
    let b = block(()).borders(Borders { bits: 0b1001 });
    assert_eq!(b.inner_area(Rect::new(2, 3, 10, 5)), Rect::new(3, 4, 9, 4));
}

#[test]
fn block_inner_area_of_an_empty_area() {
    let b = block(());
    assert_eq!(b.inner_area(Rect::new(5, 5, 0, 0)), Rect::new(5, 5, 0, 0));
}

#[test]
fn inner_area_of_a_single_cell() {
    let b = block(());
    assert_eq!(b.inner_area(Rect::new(5, 5, 1, 1)), Rect::new(6, 6, 0, 0));
}

#[test]
fn vertical_split_follows_constraints() {
    let l = vstack(((), ())).constraints(vec![Constraint::Length(5), Constraint::Min(0)]);
    let areas = l.split(Rect::new(2, 2, 10, 10));
    assert_eq!(areas, vec![Rect::new(2, 2, 10, 5), Rect::new(2, 7, 10, 5)]);
}

#[test]
fn horizontal_split_by_percentages() {
    let l = hstack(((), ())).constraints(vec![Constraint::Percentage(50), Constraint::Percentage(50)]);
    let areas = l.split(Rect::new(0, 0, 20, 3));
    assert_eq!(areas, vec![Rect::new(0, 0, 10, 3), Rect::new(10, 0, 10, 3)]);
}

#[test]
fn split_gives_one_area_per_constraint() {
    let l = vstack(()).constraints(vec![
        Constraint::Length(1),
        Constraint::Fill(1),
        Constraint::Max(3),
        Constraint::Ratio(1, 4),
    ]);
    assert_eq!(l.split(Rect::new(0, 0, 30, 30)).len(), 4);
    assert_eq!(vstack(()).split(Rect::new(0, 0, 30, 30)).len(), 0);
}

#[test]
fn layout_direction_of_stacks() {
    assert_eq!(vstack(()).direction, LayoutDirection::Vertical);
    assert_eq!(hstack(()).direction, LayoutDirection::Horizontal);
}

#[test]
fn center_without_size_fills_area() {
    let c = center(());
    let area = Rect::new(1, 2, 30, 10);
    assert_eq!(c.centered_area(area), area);
}

#[test]
fn center_with_size_centres_content() {
    let c = center(()).width(10).height(4);
    assert_eq!(c.centered_area(Rect::new(0, 0, 30, 10)), Rect::new(10, 3, 10, 4));
}

#[test]
fn center_state_records_centred_area() {
    let c = center("body").width(4).height(2);
    let st = c.build(Rect::new(0, 0, 10, 10), |b: &str, r: Rect| (b.to_string(), r));
    assert_eq!(st.area, Rect::new(3, 4, 4, 2));
    assert_eq!(st.body, ("body".to_string(), Rect::new(3, 4, 4, 2)));
}

#[test]
fn modal_defaults_to_sixty_by_twenty_five_percent() {
    let m = modal(());
    assert_eq!(m.percent_x, 60);
    assert_eq!(m.percent_y, 25);
    assert_eq!(m.modal_area(Rect::new(0, 0, 100, 40)), Rect::new(20, 15, 60, 10));
}

#[test]
fn modal_fixed_width_ignores_percent_x() {
    let m = modal(()).percent(10, 50).width(30);
    assert_eq!(m.modal_area(Rect::new(0, 0, 100, 40)), Rect::new(35, 10, 30, 20));
    let m = modal(()).percent(90, 50).width(30);
    assert_eq!(m.modal_area(Rect::new(0, 0, 100, 40)), Rect::new(35, 10, 30, 20));
}

#[test]
fn modal_fixed_height_ignores_percent_y() {
    let m = modal(()).percent(50, 80).height(6);
    assert_eq!(m.modal_area(Rect::new(0, 0, 100, 40)), Rect::new(25, 17, 50, 6));
}

#[test]
fn modal_fixed_size() {
    let m = modal(()).width(20).height(8).title("Quit?".to_string());
    assert_eq!(m.title, Some("Quit?".to_string()));
    assert_eq!(m.modal_area(Rect::new(0, 0, 100, 40)), Rect::new(40, 16, 20, 8));
}

#[test]
fn modal_state_has_content_inside_border() {
    let m = modal(7u8).width(20).height(8);
    let st = m.build(Rect::new(0, 0, 100, 40), |b: u8, r: Rect| (b, r));
    assert_eq!(st.outer_area, Rect::new(40, 16, 20, 8));
    assert_eq!(st.inner_area, Rect::new(41, 17, 18, 6));
    assert_eq!(st.body, (7u8, Rect::new(41, 17, 18, 6)));
}

#[test]
fn modal_rebuild_moves_areas_and_keeps_body() {
    let m = modal(1u8).width(20).height(8);
    let mut st = m.build(Rect::new(0, 0, 100, 40), |b: u8, _r: Rect| b);
    let body = modal(2u8).width(10).height(4).rebuild(Rect::new(0, 0, 50, 20), &mut st);
    assert_eq!(body, 2u8);
    assert_eq!(st.body, 1u8);
    assert_eq!(st.outer_area, Rect::new(20, 8, 10, 4));
    assert_eq!(st.inner_area, Rect::new(21, 9, 8, 2));
}

#[test]
fn fit_checks_catch_overflow() {
    assert!(percent_centered_fits_check(100, 100, Rect::new(0, 0, 655, 10)));
    assert!(!percent_centered_fits_check(100, 100, Rect::new(0, 0, 656, 10)));
    assert!(fixed_centered_fits_check(0, 0, Rect::new(65535, 0, 0, 0)));
    assert!(!fixed_centered_fits_check(0, 0, Rect::new(65535, 0, 2, 0)));
    assert!(fixed_centered_fits_check(2, 0, Rect::new(65535, 0, 2, 0)));
}

#[test]
fn modal_fits_on_wide_containers_only_with_fixed_size() {
    let wide = Rect::new(0, 0, 700, 40);
    assert!(!modal(()).width(30).fits(wide));
    assert!(modal(()).width(30).height(10).fits(wide));
    assert_eq!(modal(()).width(30).height(10).modal_area(wide), Rect::new(335, 15, 30, 10));
    assert!(modal(()).fits(Rect::new(0, 0, 100, 40)));
}

#[test]
fn center_fits_check() {
    assert!(center(()).fits(Rect::new(10, 10, 20, 20)));
    assert!(!center(()).width(2).fits(Rect::new(65535, 0, 8, 1)));
}

#[test]
fn modal_with_large_percent_exceeds_container() {
    let m = modal(()).percent(150, 100);
    let c = Rect::new(0, 0, 10, 10);
    assert_eq!(m.modal_area(c), Rect::new(0, 0, 15, 10));
}
