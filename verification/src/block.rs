//! Block/container builders with borders.

use crate::geometry::{block_inner, inner_rect, Borders, Rect};
use ratatui::style::Style;
use vstd::prelude::*;

verus! {

/// The line style of a border.
#[derive(Clone, Copy, Debug, PartialEq, Eq, Structural)]
pub enum BorderType {
    Plain,
    Rounded,
    Double,
    Thick,
    QuadrantInside,
    QuadrantOutside,
}

/// A block container builder with optional borders and title.
pub struct BlockBuilder<Body> {
    pub title: Option<String>,
    pub borders: Borders,
    pub border_type: BorderType,
    pub style: Style,
    pub body: Body,
}

/// Create a block container builder: no title, a rounded border on every
/// side, the default style.
pub fn block<Body>(body: Body) -> (b: BlockBuilder<Body>)
    ensures
        b.title is None,
        b.borders == Borders::spec_all(),
        b.border_type == BorderType::Rounded,
        b.body == body,
{
    BlockBuilder {
        title: None,
        borders: Borders::all(),
        border_type: BorderType::Rounded,
        style: Style::new(),
        body,
    }
}

impl<Body> BlockBuilder<Body> {
    /// Set the title for this block.
    pub fn title(self, title: String) -> (b: Self)
        ensures
            b.title == Some(title),
            b.borders == self.borders,
            b.border_type == self.border_type,
            b.style == self.style,
            b.body == self.body,
    {
        BlockBuilder { title: Some(title), ..self }
    }

    /// Set which borders to draw.
    pub fn borders(self, borders: Borders) -> (b: Self)
        ensures
            b.title == self.title,
            b.borders == borders,
            b.border_type == self.border_type,
            b.style == self.style,
            b.body == self.body,
    {
        BlockBuilder { borders, ..self }
    }

    /// Set the border type (style).
    pub fn border_type(self, border_type: BorderType) -> (b: Self)
        ensures
            b.title == self.title,
            b.borders == self.borders,
            b.border_type == border_type,
            b.style == self.style,
            b.body == self.body,
    {
        BlockBuilder { border_type, ..self }
    }

    /// Set the style for this block.
    pub fn style(self, style: Style) -> (b: Self)
        ensures
            b.title == self.title,
            b.borders == self.borders,
            b.border_type == self.border_type,
            b.style == style,
            b.body == self.body,
    {
        BlockBuilder { style, ..self }
    }

    /// The area inside the block's borders when it is drawn on `area`.
    pub fn inner_area(&self, area: Rect) -> (r: Rect)
        ensures
            r == inner_rect(self.borders, area),
    {
        block_inner(self.borders, area)
    }

    /// Builds the state of a block drawn on `area`: `build_body` builds the
    /// content within the area inside the borders.
    pub fn build<S, F: FnOnce(Body, Rect) -> S>(self, area: Rect, build_body: F) -> (st:
        BlockState<S>)
        requires
            call_requires(build_body, (self.body, inner_rect(self.borders, area))),
        ensures
            st.outer_area == area,
            st.inner_area == inner_rect(self.borders, area),
            st.title == self.title,
            st.borders == self.borders,
            st.border_type == self.border_type,
            st.style == self.style,
            call_ensures(build_body, (self.body, st.inner_area), st.body),
    {
        let inner = self.inner_area(area);
        let body = build_body(self.body, inner);
        BlockState {
            body,
            title: self.title,
            borders: self.borders,
            border_type: self.border_type,
            style: self.style,
            outer_area: area,
            inner_area: inner,
        }
    }

    /// Moves the state of a block to `area`, takes over the builder's
    /// configuration and hands over the content, which is then rebuilt within
    /// the recorded inner area.
    pub fn rebuild<S>(self, area: Rect, state: &mut BlockState<S>) -> (body: Body)
        ensures
            final(state).outer_area == area,
            final(state).inner_area == inner_rect(self.borders, area),
            final(state).title == self.title,
            final(state).borders == self.borders,
            final(state).border_type == self.border_type,
            final(state).style == self.style,
            final(state).body == old(state).body,
            body == self.body,
    {
        let inner = self.inner_area(area);
        state.title = self.title;
        state.borders = self.borders;
        state.border_type = self.border_type;
        state.style = self.style;
        state.outer_area = area;
        state.inner_area = inner;
        self.body
    }
}

/// State for a block container.
pub struct BlockState<S> {
    pub body: S,
    /// Block configuration for drawing
    pub title: Option<String>,
    pub borders: Borders,
    pub border_type: BorderType,
    pub style: Style,
    /// The outer area (for drawing the block)
    pub outer_area: Rect,
    /// The inner area (for drawing the body)
    pub inner_area: Rect,
}

/// A wrapper builder that carries a style along with its body; the body is
/// built and rebuilt as it is, and the style is not applied to it.
pub struct Styled<Body> {
    pub style: Style,
    pub body: Body,
}

/// Create a wrapper that carries `style` along with `body`.
pub fn styled<Body>(style: Style, body: Body) -> (s: Styled<Body>)
    ensures
        s.style == style,
        s.body == body,
{
    Styled { style, body }
}

} // verus!
