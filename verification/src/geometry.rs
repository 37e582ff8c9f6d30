//! Rectangles of terminal cells and the areas that components derive from
//! the area they are given.

use ratatui::layout::Constraint::{Fill, Length, Max, Min, Percentage, Ratio};
use ratatui::layout::Direction::{Horizontal, Vertical};
use ratatui::layout::Layout;
use ratatui::layout::Rect as TuiRect;
use vstd::prelude::*;

verus! {

/// A rectangle of terminal cells: its top left corner and its size.
#[derive(Clone, Copy, Debug, PartialEq, Eq, Structural)]
pub struct Rect {
    pub x: u16,
    pub y: u16,
    pub width: u16,
    pub height: u16,
}

/// `a - b`, or 0 where `b` is larger.
pub open spec fn sat_sub(a: int, b: int) -> int {
    if a >= b { a - b } else { 0 }
}

/// `a + b`, or `u16::MAX` where the sum does not fit.
pub open spec fn sat_add_u16(a: int, b: int) -> int {
    if a + b > u16::MAX { u16::MAX as int } else { a + b }
}

pub open spec fn min_int(a: int, b: int) -> int {
    if a <= b { a } else { b }
}

impl Rect {
    /// Builds a rectangle from its corner and its size.
    pub fn new(x: u16, y: u16, width: u16, height: u16) -> (r: Rect)
        ensures
            r == (Rect { x, y, width, height }),
    {
        Rect { x, y, width, height }
    }

    /// The first column to the right of the rectangle.
    pub open spec fn right(self) -> int {
        self.x + self.width
    }

    /// The first row below the rectangle.
    pub open spec fn bottom(self) -> int {
        self.y + self.height
    }

    /// The rectangle ends within the coordinate range of a terminal.
    pub open spec fn is_valid(self) -> bool {
        self.right() <= u16::MAX && self.bottom() <= u16::MAX
    }

    /// Every cell of `self` is a cell of `outer`.
    pub open spec fn within(self, outer: Rect) -> bool {
        &&& outer.x <= self.x
        &&& self.right() <= outer.right()
        &&& outer.y <= self.y
        &&& self.bottom() <= outer.bottom()
    }
}

/// The rectangle of `width` by `height` cells centred in `r`, each side
/// cut down to that of `r`.
pub open spec fn fixed_centered(width: u16, height: u16, r: Rect) -> Rect {
    Rect {
        x: (r.x + sat_sub(r.width as int, width as int) / 2) as u16,
        y: (r.y + sat_sub(r.height as int, height as int) / 2) as u16,
        width: min_int(width as int, r.width as int) as u16,
        height: min_int(height as int, r.height as int) as u16,
    }
}

/// The corner of the centred rectangle lies in the coordinate range.
pub open spec fn fixed_centered_fits(width: u16, height: u16, r: Rect) -> bool {
    &&& r.x + sat_sub(r.width as int, width as int) / 2 <= u16::MAX
    &&& r.y + sat_sub(r.height as int, height as int) / 2 <= u16::MAX
}

/// The width that `percent` percent of `total` cells round down to.
pub open spec fn percent_of(total: u16, percent: u16) -> int {
    (total as int * percent as int) / 100
}

/// The rectangle of `percent_x` percent of the width and `percent_y`
/// percent of the height of `r`, centred in `r`.
pub open spec fn percent_centered(percent_x: u16, percent_y: u16, r: Rect) -> Rect {
    let w: int = percent_of(r.width, percent_x);
    let h: int = percent_of(r.height, percent_y);
    Rect {
        x: (r.x + sat_sub(r.width as int, w) / 2) as u16,
        y: (r.y + sat_sub(r.height as int, h) / 2) as u16,
        width: w as u16,
        height: h as u16,
    }
}

/// The products and the corner of `percent_centered` fit in a `u16`.
pub open spec fn percent_centered_fits(percent_x: u16, percent_y: u16, r: Rect) -> bool {
    let w: int = percent_of(r.width, percent_x);
    let h: int = percent_of(r.height, percent_y);
    &&& r.width as int * percent_x as int <= u16::MAX
    &&& r.height as int * percent_y as int <= u16::MAX
    &&& r.x + sat_sub(r.width as int, w) / 2 <= u16::MAX
    &&& r.y + sat_sub(r.height as int, h) / 2 <= u16::MAX
}

/// Whether `centered_rect_fixed` can centre a rectangle of this size in `r`
/// without leaving the coordinate range.
pub fn fixed_centered_fits_check(width: u16, height: u16, r: Rect) -> (b: bool)
    ensures
        b == fixed_centered_fits(width, height, r),
{
    let x: u32 = r.x as u32 + (r.width.saturating_sub(width) / 2) as u32;
    let y: u32 = r.y as u32 + (r.height.saturating_sub(height) / 2) as u32;
    x <= 0xffff && y <= 0xffff
}

/// Whether `centered_rect` can take these percentages of `r` and centre the
/// result without leaving the range of `u16`.
pub fn percent_centered_fits_check(percent_x: u16, percent_y: u16, r: Rect) -> (b: bool)
    ensures
        b == percent_centered_fits(percent_x, percent_y, r),
{
    let rw: u32 = r.width as u32;
    let px: u32 = percent_x as u32;
    let rh: u32 = r.height as u32;
    let py: u32 = percent_y as u32;
    assert(rw * px <= 0xffff * 0xffff && rh * py <= 0xffff * 0xffff) by (nonlinear_arith)
        requires
            rw <= 0xffff && px <= 0xffff && rh <= 0xffff && py <= 0xffff,
    ;
    let wp: u32 = rw * px;
    let hp: u32 = rh * py;
    if wp > 0xffff || hp > 0xffff {
        return false;
    }
    let w: u16 = (wp / 100) as u16;
    let h: u16 = (hp / 100) as u16;
    let x: u32 = r.x as u32 + (r.width.saturating_sub(w) / 2) as u32;
    let y: u32 = r.y as u32 + (r.height.saturating_sub(h) / 2) as u32;
    x <= 0xffff && y <= 0xffff
}

/// Create a centered rectangle with percentage-based dimensions.
pub fn centered_rect(percent_x: u16, percent_y: u16, r: Rect) -> (c: Rect)
    requires
        percent_centered_fits(percent_x, percent_y, r),
    ensures
        c == percent_centered(percent_x, percent_y, r),
{
    let popup_width: u16 = r.width * percent_x / 100;
    let popup_height: u16 = r.height * percent_y / 100;

    let x: u16 = r.x + (r.width.saturating_sub(popup_width)) / 2;
    let y: u16 = r.y + (r.height.saturating_sub(popup_height)) / 2;

    Rect { x, y, width: popup_width, height: popup_height }
}

/// Create a centered rectangle with fixed dimensions.
pub fn centered_rect_fixed(width: u16, height: u16, r: Rect) -> (c: Rect)
    requires
        fixed_centered_fits(width, height, r),
    ensures
        c == fixed_centered(width, height, r),
{
    let x: u16 = r.x + (r.width.saturating_sub(width)) / 2;
    let y: u16 = r.y + (r.height.saturating_sub(height)) / 2;
    let w: u16 = if width < r.width { width } else { r.width };
    let h: u16 = if height < r.height { height } else { r.height };
    Rect { x, y, width: w, height: h }
}

/// The cells that `c` leaves free to its left and above within `outer` are
/// as many as those to its right and below, or one fewer.
pub open spec fn is_centered_in(c: Rect, outer: Rect) -> bool {
    let left: int = c.x - outer.x;
    let right: int = outer.right() - c.right();
    let top: int = c.y - outer.y;
    let below: int = outer.bottom() - c.bottom();
    &&& left <= right <= left + 1
    &&& top <= below <= top + 1
}

/// Which sides of a box carry a border: the bits of top, right, bottom and
/// left, from the lowest up.
#[derive(Clone, Copy, Debug, PartialEq, Eq, Structural)]
pub struct Borders {
    pub bits: u8,
}

impl Borders {
    /// No border.
    pub fn none() -> (b: Borders)
        ensures
            b.bits == 0,
            !b.has_top() && !b.has_right() && !b.has_bottom() && !b.has_left(),
    {
        let bits: u8 = 0;
        assert(bits & 1 == 0 && bits & 2 == 0 && bits & 4 == 0 && bits & 8 == 0)
            by (bit_vector)
            requires
                bits == 0,
        ;
        Borders { bits }
    }

    /// The bits of a border on all four sides.
    pub open spec fn spec_all() -> Borders {
        Borders { bits: 15 }
    }

    /// A border on all four sides.
    pub fn all() -> (b: Borders)
        ensures
            b == Borders::spec_all(),
            b.has_top() && b.has_right() && b.has_bottom() && b.has_left(),
    {
        let bits: u8 = 15;
        assert(bits & 1 != 0 && bits & 2 != 0 && bits & 4 != 0 && bits & 8 != 0)
            by (bit_vector)
            requires
                bits == 15,
        ;
        Borders { bits }
    }

    pub open spec fn has_top(self) -> bool {
        self.bits & 1 != 0
    }

    pub open spec fn has_right(self) -> bool {
        self.bits & 2 != 0
    }

    pub open spec fn has_bottom(self) -> bool {
        self.bits & 4 != 0
    }

    pub open spec fn has_left(self) -> bool {
        self.bits & 8 != 0
    }
}

/// The area inside a box with the given borders, no title and no padding
/// drawn on `area`: each side with a border gives up one row or column,
/// where the area has one to give.
pub open spec fn inner_rect(borders: Borders, area: Rect) -> Rect {
    let x: int = if borders.has_left() {
        min_int(sat_add_u16(area.x as int, 1), sat_add_u16(area.x as int, area.width as int))
    } else {
        area.x as int
    };
    let w1: int = if borders.has_left() { sat_sub(area.width as int, 1) } else { area.width as int };
    let y: int = if borders.has_top() {
        min_int(sat_add_u16(area.y as int, 1), sat_add_u16(area.y as int, area.height as int))
    } else {
        area.y as int
    };
    let h1: int = if borders.has_top() { sat_sub(area.height as int, 1) } else { area.height as int };
    let w: int = if borders.has_right() { sat_sub(w1, 1) } else { w1 };
    let h: int = if borders.has_bottom() { sat_sub(h1, 1) } else { h1 };
    Rect { x: x as u16, y: y as u16, width: w as u16, height: h as u16 }
}

/// The inner area of a `ratatui::widgets::Block` with these borders, as
/// `Block::inner` computes it. The contract states the computation of
/// `Block::inner` for a block that has borders and nothing else.
#[verifier::external_body]
pub(crate) fn block_inner(borders: Borders, area: Rect) -> (r: Rect)
    ensures
        r == inner_rect(borders, area),
{
    let block = ratatui::widgets::Block::default().borders(
        ratatui::widgets::Borders::from_bits_truncate(borders.bits),
    );
    let r = block.inner(TuiRect { x: area.x, y: area.y, width: area.width, height: area.height });
    Rect { x: r.x, y: r.y, width: r.width, height: r.height }
}

/// Direction for layout (vertical or horizontal).
#[derive(Clone, Copy, Debug, PartialEq, Eq, Structural)]
pub enum LayoutDirection {
    Vertical,
    Horizontal,
}

/// How much of the area along the layout's direction a segment claims.
#[derive(Clone, Copy, Debug, PartialEq, Eq, Structural)]
pub enum Constraint {
    Min(u16),
    Max(u16),
    Length(u16),
    Percentage(u16),
    Ratio(u32, u32),
    Fill(u16),
}

/// The segments into which `ratatui::layout::Layout::split` divides `area`
/// along `direction` under `constraints`, with no margin, no spacing and the
/// default flex.
pub uninterp spec fn layout_areas(
    direction: LayoutDirection,
    constraints: Seq<Constraint>,
    area: Rect,
) -> Seq<Rect>;

/// Splits `area` with `ratatui::layout::Layout::split`. The contract names
/// the result, which ratatui computes with a constraint solver, and states
/// that there is one segment per constraint, as the solver's segments are
/// built one per constraint. It leaves unsaid where the solver places them.
/// `split` unwraps the solver's result, so it would panic where the solver
/// refuses a constraint; no input is known on which it does, and the
/// contract speaks only of a call that returns.
#[verifier::external_body]
pub(crate) fn layout_split(
    direction: LayoutDirection,
    constraints: &Vec<Constraint>,
    area: Rect,
) -> (areas: Vec<Rect>)
    ensures
        areas@ == layout_areas(direction, constraints@, area),
        areas@.len() == constraints@.len(),
{
    let cs = constraints.iter().map(|c| match *c {
        Constraint::Min(v) => Min(v), Constraint::Max(v) => Max(v), Constraint::Length(v) => Length(v),
        Constraint::Percentage(v) => Percentage(v), Constraint::Ratio(a, b) => Ratio(a, b),
        Constraint::Fill(v) => Fill(v),
    });
    let dir = match direction { LayoutDirection::Vertical => Vertical, _ => Horizontal };
    let rects = Layout::new(dir, cs).split(TuiRect { x: area.x, y: area.y, width: area.width, height: area.height });
    rects.iter().map(|r| Rect { x: r.x, y: r.y, width: r.width, height: r.height }).collect()
}

/// The area inside a box lies within the box.
pub proof fn lemma_inner_within(borders: Borders, area: Rect)
    ensures
        inner_rect(borders, area).within(area),
{
}

/// Inside a box with a border on every side that is at least two cells wide
/// and high, the inner area is one cell in from each side.
pub proof fn lemma_inner_all_borders(borders: Borders, area: Rect)
    requires
        borders.has_top() && borders.has_right() && borders.has_bottom() && borders.has_left(),
        area.is_valid(),
        area.width >= 2,
        area.height >= 2,
    ensures
        inner_rect(borders, area) == (Rect {
            x: (area.x + 1) as u16,
            y: (area.y + 1) as u16,
            width: (area.width - 2) as u16,
            height: (area.height - 2) as u16,
        }),
{
}

/// A rectangle of fixed size centred in an area lies within that area and is
/// centred in it, up to one cell.
pub proof fn lemma_fixed_centered_within(width: u16, height: u16, r: Rect)
    requires
        fixed_centered_fits(width, height, r),
    ensures
        fixed_centered(width, height, r).within(r),
        is_centered_in(fixed_centered(width, height, r), r),
{
}

/// A rectangle of at most a hundred percent of each side, centred in an
/// area, lies within that area and is centred in it, up to one cell.
pub proof fn lemma_percent_centered_within(percent_x: u16, percent_y: u16, r: Rect)
    requires
        percent_x <= 100,
        percent_y <= 100,
        percent_centered_fits(percent_x, percent_y, r),
    ensures
        percent_centered(percent_x, percent_y, r).within(r),
        is_centered_in(percent_centered(percent_x, percent_y, r), r),
{
    assert(percent_of(r.width, percent_x) <= r.width) by (nonlinear_arith)
        requires
            percent_x <= 100,
    ;
    assert(percent_of(r.height, percent_y) <= r.height) by (nonlinear_arith)
        requires
            percent_y <= 100,
    ;
}

/// In an area that ends within the coordinate range, the corner of every
/// rectangle centred in it lies in the range as well.
pub proof fn lemma_valid_area_fits(width: u16, height: u16, r: Rect)
    requires
        r.is_valid(),
    ensures
        fixed_centered_fits(width, height, r),
{
}

} // verus!
