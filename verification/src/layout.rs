//! Layout builders: stacks split by constraints, spacers and centred
//! containers.

use crate::geometry::{
    centered_rect_fixed, fixed_centered, fixed_centered_fits, fixed_centered_fits_check, layout_areas, layout_split,
    Constraint, LayoutDirection, Rect,
};
use vstd::prelude::*;

verus! {

/// A layout builder that arranges children according to constraints.
pub struct LayoutBuilder<Children> {
    pub direction: LayoutDirection,
    pub constraints: Vec<Constraint>,
    pub children: Children,
}

/// Create a vertical stack layout.
pub fn vstack<C>(children: C) -> (l: LayoutBuilder<C>)
    ensures
        l.direction == LayoutDirection::Vertical,
        l.constraints@.len() == 0,
        l.children == children,
{
    LayoutBuilder { direction: LayoutDirection::Vertical, constraints: Vec::new(), children }
}

/// Create a horizontal row layout.
pub fn hstack<C>(children: C) -> (l: LayoutBuilder<C>)
    ensures
        l.direction == LayoutDirection::Horizontal,
        l.constraints@.len() == 0,
        l.children == children,
{
    LayoutBuilder { direction: LayoutDirection::Horizontal, constraints: Vec::new(), children }
}

impl<Children> LayoutBuilder<Children> {
    /// Set the constraints for this layout.
    pub fn constraints(self, constraints: Vec<Constraint>) -> (l: Self)
        ensures
            l.direction == self.direction,
            l.constraints@ == constraints@,
            l.children == self.children,
    {
        LayoutBuilder { direction: self.direction, constraints, children: self.children }
    }

    /// The areas of the children within `area`, one per constraint.
    pub fn split(&self, area: Rect) -> (areas: Vec<Rect>)
        ensures
            areas@ == layout_areas(self.direction, self.constraints@, area),
            areas@.len() == self.constraints@.len(),
    {
        layout_split(self.direction, &self.constraints, area)
    }

    /// Splits `area` and hands over the children with the areas computed for
    /// them, the `i`-th area for the `i`-th child.
    pub fn into_parts(self, area: Rect) -> (parts: (Children, Vec<Rect>))
        ensures
            parts.0 == self.children,
            parts.1@ == layout_areas(self.direction, self.constraints@, area),
            parts.1@.len() == self.constraints@.len(),
    {
        let areas = self.split(area);
        (self.children, areas)
    }
}

/// State for layout builders.
pub struct LayoutState<S> {
    pub children: S,
    /// The areas for each child, computed during build/rebuild
    pub areas: Vec<Rect>,
}

impl<S> LayoutState<S> {
    /// The area of the `index`-th child, where the layout computed one.
    pub fn area_for(&self, index: usize) -> (r: Option<Rect>)
        ensures
            index < self.areas@.len() ==> r == Some(self.areas@[index as int]),
            index >= self.areas@.len() ==> r is None,
    {
        if index < self.areas.len() {
            Some(self.areas[index])
        } else {
            None
        }
    }
}

/// A spacer that takes up space but renders nothing.
pub struct Spacer;

/// Create a spacer element.
pub fn spacer() -> (s: Spacer)
    ensures
        s == Spacer,
{
    Spacer
}

/// Center content within the available area.
pub struct Center<Body> {
    pub width: Option<u16>,
    pub height: Option<u16>,
    pub body: Body,
}

/// Create a centered container.
pub fn center<Body>(body: Body) -> (c: Center<Body>)
    ensures
        c.width is None,
        c.height is None,
        c.body == body,
{
    Center { width: None, height: None, body }
}

impl<Body> Center<Body> {
    /// Set a fixed width for the centered content.
    pub fn width(self, width: u16) -> (c: Self)
        ensures
            c.width == Some(width),
            c.height == self.height,
            c.body == self.body,
    {
        Center { width: Some(width), height: self.height, body: self.body }
    }

    /// Set a fixed height for the centered content.
    pub fn height(self, height: u16) -> (c: Self)
        ensures
            c.width == self.width,
            c.height == Some(height),
            c.body == self.body,
    {
        Center { width: self.width, height: Some(height), body: self.body }
    }

    /// The size of the content: the fixed size where one is set, else that
    /// of the area.
    pub open spec fn content_size(&self, area: Rect) -> (u16, u16) {
        (
            match self.width {
                Some(w) => w,
                None => area.width,
            },
            match self.height {
                Some(h) => h,
                None => area.height,
            },
        )
    }

    /// The area of the content: its size centred in `area`.
    pub open spec fn spec_centered_area(&self, area: Rect) -> Rect {
        fixed_centered(self.content_size(area).0, self.content_size(area).1, area)
    }

    /// The corner of the centred content lies in the coordinate range.
    pub open spec fn centered_fits(&self, area: Rect) -> bool {
        fixed_centered_fits(self.content_size(area).0, self.content_size(area).1, area)
    }

    /// Whether the content can be centred in `area` without leaving the
    /// coordinate range.
    pub fn fits(&self, area: Rect) -> (b: bool)
        ensures
            b == self.centered_fits(area),
    {
        let width: u16 = match self.width {
            Some(w) => w,
            None => area.width,
        };
        let height: u16 = match self.height {
            Some(h) => h,
            None => area.height,
        };
        fixed_centered_fits_check(width, height, area)
    }

    /// The area of the content within `area`.
    pub fn centered_area(&self, area: Rect) -> (r: Rect)
        requires
            self.centered_fits(area),
        ensures
            r == self.spec_centered_area(area),
    {
        let width: u16 = match self.width {
            Some(w) => w,
            None => area.width,
        };
        let height: u16 = match self.height {
            Some(h) => h,
            None => area.height,
        };
        centered_rect_fixed(width, height, area)
    }

    /// Builds the state of a centred container: `build_body` builds the
    /// content within the centred area, which the state records.
    pub fn build<S, F: FnOnce(Body, Rect) -> S>(self, area: Rect, build_body: F) -> (st:
        CenterState<S>)
        requires
            self.centered_fits(area),
            call_requires(build_body, (self.body, self.spec_centered_area(area))),
        ensures
            st.area == self.spec_centered_area(area),
            call_ensures(build_body, (self.body, st.area), st.body),
    {
        let centered = self.centered_area(area);
        let body = build_body(self.body, centered);
        CenterState { body, area: centered }
    }

    /// Moves the state of a centred container to `area` and hands over the
    /// content, which is then rebuilt within the recorded area.
    pub fn rebuild<S>(self, area: Rect, state: &mut CenterState<S>) -> (body: Body)
        requires
            self.centered_fits(area),
        ensures
            final(state).area == self.spec_centered_area(area),
            final(state).body == old(state).body,
            body == self.body,
    {
        state.area = self.centered_area(area);
        self.body
    }
}

/// The content of a centred container lies within the container's area and
/// is centred in it, up to one cell.
pub proof fn lemma_center_within<Body>(c: Center<Body>, area: Rect)
    requires
        c.centered_fits(area),
    ensures
        c.spec_centered_area(area).within(area),
        crate::geometry::is_centered_in(c.spec_centered_area(area), area),
{
    crate::geometry::lemma_fixed_centered_within(c.content_size(area).0, c.content_size(area).1, area);
}

/// A side of a centred container with no fixed size takes the whole of that
/// side of the area; a fixed side takes its size, cut down to the area,
/// centred.
pub proof fn lemma_center_sides<Body>(c: Center<Body>, area: Rect)
    ensures
        c.height is None ==> c.spec_centered_area(area).height == area.height
            && c.spec_centered_area(area).y == area.y,
        c.width is None ==> c.spec_centered_area(area).width == area.width
            && c.spec_centered_area(area).x == area.x,
        c.width matches Some(w) ==> c.spec_centered_area(area).width == (if w <= area.width {
            w
        } else {
            area.width
        }),
        c.height matches Some(h) ==> c.spec_centered_area(area).height == (if h
            <= area.height {
            h
        } else {
            area.height
        }),
{
}

/// State for a centered container.
pub struct CenterState<S> {
    pub body: S,
    pub area: Rect,
}

} // verus!
