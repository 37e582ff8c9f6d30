//! Modal popups centred over their container, and layers drawn on top of
//! each other.

use crate::geometry::{
    block_inner, centered_rect, centered_rect_fixed, fixed_centered, fixed_centered_fits,
    fixed_centered_fits_check, percent_centered_fits_check,
    inner_rect, min_int, percent_centered, percent_centered_fits, sat_sub, Borders, Rect,
};
use ratatui::style::Style;
use vstd::prelude::*;

verus! {

/// A modal popup builder.
pub struct Modal<Body> {
    pub title: Option<String>,
    pub style: Style,
    pub percent_x: u16,
    pub percent_y: u16,
    pub fixed_width: Option<u16>,
    pub fixed_height: Option<u16>,
    pub body: Body,
}

/// Create a modal popup builder: no title, the default style, sixty percent
/// of the width and twenty-five percent of the height.
pub fn modal<Body>(body: Body) -> (m: Modal<Body>)
    ensures
        m.title is None,
        m.percent_x == 60,
        m.percent_y == 25,
        m.fixed_width is None,
        m.fixed_height is None,
        m.body == body,
{
    Modal {
        title: None,
        style: Style::new(),
        percent_x: 60,
        percent_y: 25,
        fixed_width: None,
        fixed_height: None,
        body,
    }
}

impl<Body> Modal<Body> {
    /// Set the title for this modal.
    pub fn title(self, title: String) -> (m: Self)
        ensures
            m.title == Some(title),
            m.style == self.style,
            m.percent_x == self.percent_x,
            m.percent_y == self.percent_y,
            m.fixed_width == self.fixed_width,
            m.fixed_height == self.fixed_height,
            m.body == self.body,
    {
        Modal { title: Some(title), ..self }
    }

    /// Set the style for this modal's border.
    pub fn style(self, style: Style) -> (m: Self)
        ensures
            m.title == self.title,
            m.style == style,
            m.percent_x == self.percent_x,
            m.percent_y == self.percent_y,
            m.fixed_width == self.fixed_width,
            m.fixed_height == self.fixed_height,
            m.body == self.body,
    {
        Modal { style, ..self }
    }

    /// Set the percentage of screen width/height for this modal.
    pub fn percent(self, x: u16, y: u16) -> (m: Self)
        ensures
            m.title == self.title,
            m.style == self.style,
            m.percent_x == x,
            m.percent_y == y,
            m.fixed_width == self.fixed_width,
            m.fixed_height == self.fixed_height,
            m.body == self.body,
    {
        Modal { percent_x: x, percent_y: y, ..self }
    }

    /// Set a fixed width (ignores percent_x).
    pub fn width(self, width: u16) -> (m: Self)
        ensures
            m.title == self.title,
            m.style == self.style,
            m.percent_x == self.percent_x,
            m.percent_y == self.percent_y,
            m.fixed_width == Some(width),
            m.fixed_height == self.fixed_height,
            m.body == self.body,
    {
        Modal { fixed_width: Some(width), ..self }
    }

    /// Set a fixed height (ignores percent_y).
    pub fn height(self, height: u16) -> (m: Self)
        ensures
            m.title == self.title,
            m.style == self.style,
            m.percent_x == self.percent_x,
            m.percent_y == self.percent_y,
            m.fixed_width == self.fixed_width,
            m.fixed_height == Some(height),
            m.body == self.body,
    {
        Modal { fixed_height: Some(height), ..self }
    }

    /// The outer area of the modal within `container`: a fixed side is
    /// centred as it is, a side without one takes its percentage of the
    /// container.
    pub open spec fn spec_modal_area(&self, container: Rect) -> Rect {
        match (self.fixed_width, self.fixed_height) {
            (Some(w), Some(h)) => fixed_centered(w, h, container),
            (Some(w), None) => fixed_centered(
                w,
                percent_centered(100, self.percent_y, container).height,
                container,
            ),
            (None, Some(h)) => fixed_centered(
                percent_centered(self.percent_x, 100, container).width,
                h,
                container,
            ),
            (None, None) => percent_centered(self.percent_x, self.percent_y, container),
        }
    }

    /// The computation of the modal's area stays within `u16`.
    pub open spec fn modal_fits(&self, container: Rect) -> bool {
        match (self.fixed_width, self.fixed_height) {
            (Some(w), Some(h)) => fixed_centered_fits(w, h, container),
            (Some(w), None) => {
                &&& percent_centered_fits(100, self.percent_y, container)
                &&& fixed_centered_fits(
                    w,
                    percent_centered(100, self.percent_y, container).height,
                    container,
                )
            },
            (None, Some(h)) => {
                &&& percent_centered_fits(self.percent_x, 100, container)
                &&& fixed_centered_fits(
                    percent_centered(self.percent_x, 100, container).width,
                    h,
                    container,
                )
            },
            (None, None) => percent_centered_fits(self.percent_x, self.percent_y, container),
        }
    }

    /// The area inside the modal's border, where its content is drawn.
    pub open spec fn spec_inner_area(&self, container: Rect) -> Rect {
        inner_rect(Borders::spec_all(), self.spec_modal_area(container))
    }

    /// Whether the modal's area can be computed in `container` without
    /// leaving the range of `u16`.
    pub fn fits(&self, container: Rect) -> (b: bool)
        ensures
            b == self.modal_fits(container),
    {
        match (self.fixed_width, self.fixed_height) {
            (Some(w), Some(h)) => fixed_centered_fits_check(w, h, container),
            (Some(w), None) => {
                if !percent_centered_fits_check(100, self.percent_y, container) {
                    return false;
                }
                let area = centered_rect(100, self.percent_y, container);
                fixed_centered_fits_check(w, area.height, container)
            },
            (None, Some(h)) => {
                if !percent_centered_fits_check(self.percent_x, 100, container) {
                    return false;
                }
                let area = centered_rect(self.percent_x, 100, container);
                fixed_centered_fits_check(area.width, h, container)
            },
            (None, None) => percent_centered_fits_check(self.percent_x, self.percent_y, container),
        }
    }

    /// The outer area of the modal within `container`.
    pub fn modal_area(&self, container: Rect) -> (r: Rect)
        requires
            self.modal_fits(container),
        ensures
            r == self.spec_modal_area(container),
    {
        match (self.fixed_width, self.fixed_height) {
            (Some(w), Some(h)) => centered_rect_fixed(w, h, container),
            (Some(w), None) => {
                let area = centered_rect(100, self.percent_y, container);
                centered_rect_fixed(w, area.height, container)
            },
            (None, Some(h)) => {
                let area = centered_rect(self.percent_x, 100, container);
                centered_rect_fixed(area.width, h, container)
            },
            (None, None) => centered_rect(self.percent_x, self.percent_y, container),
        }
    }

    /// Builds the state of a modal: `build_body` builds the content within
    /// the area inside the modal's rounded border.
    pub fn build<S, F: FnOnce(Body, Rect) -> S>(self, container: Rect, build_body: F) -> (st:
        ModalState<S>)
        requires
            self.modal_fits(container),
            call_requires(build_body, (self.body, self.spec_inner_area(container))),
        ensures
            st.outer_area == self.spec_modal_area(container),
            st.inner_area == self.spec_inner_area(container),
            st.title == self.title,
            st.style == self.style,
            call_ensures(build_body, (self.body, st.inner_area), st.body),
    {
        let area = self.modal_area(container);
        let borders = Borders::all();
        let inner = block_inner(borders, area);
        let body = build_body(self.body, inner);
        ModalState {
            body,
            title: self.title,
            style: self.style,
            outer_area: area,
            inner_area: inner,
        }
    }

    /// Moves the state of a modal to `container`, takes over the builder's
    /// title and style and hands over the content, which is then rebuilt
    /// within the recorded inner area.
    pub fn rebuild<S>(self, container: Rect, state: &mut ModalState<S>) -> (body: Body)
        requires
            self.modal_fits(container),
        ensures
            final(state).outer_area == self.spec_modal_area(container),
            final(state).inner_area == self.spec_inner_area(container),
            final(state).title == self.title,
            final(state).style == self.style,
            final(state).body == old(state).body,
            body == self.body,
    {
        let area = self.modal_area(container);
        let borders = Borders::all();
        state.inner_area = block_inner(borders, area);
        state.outer_area = area;
        state.title = self.title;
        state.style = self.style;
        self.body
    }
}

/// State for a modal.
pub struct ModalState<S> {
    pub body: S,
    /// Modal configuration for drawing
    pub title: Option<String>,
    pub style: Style,
    /// The outer area (for clearing and drawing the block)
    pub outer_area: Rect,
    /// The inner area (for drawing the body)
    pub inner_area: Rect,
}

/// A layer that renders multiple overlapping components.
///
/// Later components are rendered on top of earlier ones.
pub struct Layer<Base, Overlay> {
    pub base: Base,
    pub overlay: Overlay,
}

/// Create a layer with a base and overlay.
pub fn layer<Base, Overlay>(base: Base, overlay: Overlay) -> (l: Layer<Base, Overlay>)
    ensures
        l.base == base,
        l.overlay == overlay,
{
    Layer { base, overlay }
}

impl<Base, Overlay> Layer<Base, Overlay> {
    /// Builds the state of a layer: base and overlay are built on the same
    /// area, which the state records.
    pub fn build<B, O, FB: FnOnce(Base, Rect) -> B, FO: FnOnce(Overlay, Rect) -> O>(
        self,
        area: Rect,
        build_base: FB,
        build_overlay: FO,
    ) -> (st: LayerState<B, O>)
        requires
            call_requires(build_base, (self.base, area)),
            call_requires(build_overlay, (self.overlay, area)),
        ensures
            st.area == area,
            call_ensures(build_base, (self.base, area), st.base),
            call_ensures(build_overlay, (self.overlay, area), st.overlay),
    {
        let base = build_base(self.base, area);
        let overlay = build_overlay(self.overlay, area);
        LayerState { base, overlay, area }
    }

    /// Moves the state of a layer to `area` and hands over base and overlay,
    /// which are then rebuilt on that area.
    pub fn rebuild<B, O>(self, area: Rect, state: &mut LayerState<B, O>) -> (parts: (
        Base,
        Overlay,
    ))
        ensures
            final(state).area == area,
            final(state).base == old(state).base,
            final(state).overlay == old(state).overlay,
            parts.0 == self.base,
            parts.1 == self.overlay,
    {
        state.area = area;
        (self.base, self.overlay)
    }
}

/// State for a layer.
pub struct LayerState<B, O> {
    pub base: B,
    pub overlay: O,
    pub area: Rect,
}

/// A modal whose sides without a fixed size take at most a hundred percent
/// lies within its container, and its content area within its border.
pub proof fn lemma_modal_within<Body>(m: Modal<Body>, container: Rect)
    requires
        m.modal_fits(container),
        m.fixed_width is None ==> m.percent_x <= 100,
        m.fixed_height is None ==> m.percent_y <= 100,
    ensures
        m.spec_modal_area(container).within(container),
        m.spec_inner_area(container).within(m.spec_modal_area(container)),
{
    crate::geometry::lemma_inner_within(Borders::spec_all(), m.spec_modal_area(container));
    match (m.fixed_width, m.fixed_height) {
        (Some(w), Some(h)) => {
            crate::geometry::lemma_fixed_centered_within(w, h, container);
        },
        (Some(w), None) => {
            let a = percent_centered(100, m.percent_y, container);
            crate::geometry::lemma_fixed_centered_within(w, a.height, container);
        },
        (None, Some(h)) => {
            let a = percent_centered(m.percent_x, 100, container);
            crate::geometry::lemma_fixed_centered_within(a.width, h, container);
        },
        (None, None) => {
            crate::geometry::lemma_percent_centered_within(m.percent_x, m.percent_y, container);
        },
    }
}

/// A modal with a fixed width and no fixed height takes `percent_y` percent
/// of the container's height, rounded down, centred vertically, and its
/// fixed width (cut down to the container) centred horizontally.
pub proof fn lemma_fixed_width_percent_height<Body>(m: Modal<Body>, c: Rect)
    requires
        m.fixed_width is Some,
        m.fixed_height is None,
        m.percent_y <= 100,
        m.modal_fits(c),
    ensures
        ({
            let a = m.spec_modal_area(c);
            let w = m.fixed_width.unwrap();
            let h = (c.height * m.percent_y) / 100;
            &&& a.height == h
            &&& a.y == c.y + (c.height - h) / 2
            &&& a.width == (if w <= c.width { w } else { c.width })
            &&& a.x == c.x + (if w <= c.width { c.width - w } else { 0 }) / 2
        }),
{
    let py = m.percent_y;
    let ch = c.height;
    assert((ch * py) / 100 <= ch) by (nonlinear_arith)
        requires
            py <= 100,
    ;
}

/// A modal with a fixed height and no fixed width takes `percent_x` percent
/// of the container's width, rounded down, centred horizontally, and its
/// fixed height (cut down to the container) centred vertically.
pub proof fn lemma_fixed_height_percent_width<Body>(m: Modal<Body>, c: Rect)
    requires
        m.fixed_width is None,
        m.fixed_height is Some,
        m.percent_x <= 100,
        m.modal_fits(c),
    ensures
        ({
            let a = m.spec_modal_area(c);
            let h = m.fixed_height.unwrap();
            let w = (c.width * m.percent_x) / 100;
            &&& a.width == w
            &&& a.x == c.x + (c.width - w) / 2
            &&& a.height == (if h <= c.height { h } else { c.height })
            &&& a.y == c.y + (if h <= c.height { c.height - h } else { 0 }) / 2
        }),
{
    let px = m.percent_x;
    let cw = c.width;
    assert((cw * px) / 100 <= cw) by (nonlinear_arith)
        requires
            px <= 100,
    ;
}

/// A modal with neither side fixed takes `percent_x` percent of the
/// container's width and `percent_y` percent of its height, rounded down and
/// centred; with both sides fixed it takes those sizes (cut down to the
/// container), centred.
pub proof fn lemma_modal_sizes<Body>(m: Modal<Body>, c: Rect)
    requires
        m.modal_fits(c),
        m.percent_x <= 100,
        m.percent_y <= 100,
    ensures
        m.fixed_width is None && m.fixed_height is None ==> ({
            let a = m.spec_modal_area(c);
            let w = (c.width * m.percent_x) / 100;
            let h = (c.height * m.percent_y) / 100;
            &&& a.width == w
            &&& a.height == h
            &&& a.x == c.x + (c.width - w) / 2
            &&& a.y == c.y + (c.height - h) / 2
        }),
        m.fixed_width is Some && m.fixed_height is Some ==> ({
            let a = m.spec_modal_area(c);
            let w = m.fixed_width.unwrap();
            let h = m.fixed_height.unwrap();
            &&& a.width == (if w <= c.width { w } else { c.width })
            &&& a.height == (if h <= c.height { h } else { c.height })
        }),
{
    let px = m.percent_x;
    let cw = c.width;
    let py = m.percent_y;
    let ch = c.height;
    assert((cw * px) / 100 <= cw) by (nonlinear_arith)
        requires
            px <= 100,
    ;
    assert((ch * py) / 100 <= ch) by (nonlinear_arith)
        requires
            py <= 100,
    ;
}

/// A fixed width or height is the modal's width or height (cut down to the
/// container) centred in the container, whatever percentage is set for it.
pub proof fn lemma_fixed_size_ignores_percent<Body>(m: Modal<Body>, container: Rect)
    ensures
        m.fixed_width matches Some(w) ==> {
            &&& m.spec_modal_area(container).width == min_int(w as int, container.width as int)
            &&& m.spec_modal_area(container).x == (container.x + sat_sub(
                container.width as int,
                w as int,
            ) / 2) as u16
        },
        m.fixed_height matches Some(h) ==> {
            &&& m.spec_modal_area(container).height == min_int(h as int, container.height as int)
            &&& m.spec_modal_area(container).y == (container.y + sat_sub(
                container.height as int,
                h as int,
            ) / 2) as u16
        },
{
}

} // verus!
