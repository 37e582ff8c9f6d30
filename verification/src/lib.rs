//! Layout, selection and text-editing core of a terminal UI toolkit built on
//! ratatui: the geometry of centred, boxed and split areas, the selection
//! state of lists, the edit buffer of text inputs and the animation counter of
//! throbbers, each with a contract proved by Verus.

use vstd::prelude::*;

pub mod block;
pub mod geometry;
pub mod input;
pub mod layout;
pub mod list;
pub mod modal;
pub mod style;
pub mod text;
pub mod throbber;

use crate::geometry::Rect;

verus! {

/// Context for building components: the area allocated for rendering.
#[derive(Clone, Copy, Debug, PartialEq, Eq, Structural)]
pub struct BuildCx {
    /// The area allocated for this component
    pub area: Rect,
}

impl BuildCx {
    /// Create a new BuildCx with the given area.
    pub fn new(area: Rect) -> (cx: Self)
        ensures
            cx.area == area,
    {
        BuildCx { area }
    }

    /// Create a child context with a different area.
    pub fn with_area(&self, area: Rect) -> (cx: Self)
        ensures
            cx.area == area,
    {
        BuildCx { area }
    }
}

/// Context for rebuilding components: the area allocated for rendering.
#[derive(Clone, Copy, Debug, PartialEq, Eq, Structural)]
pub struct RebuildCx {
    /// The area allocated for this component
    pub area: Rect,
}

impl RebuildCx {
    /// Create a new RebuildCx with the given area.
    pub fn new(area: Rect) -> (cx: Self)
        ensures
            cx.area == area,
    {
        RebuildCx { area }
    }

    /// Create a child context with a different area.
    pub fn with_area(&self, area: Rect) -> (cx: Self)
        ensures
            cx.area == area,
    {
        RebuildCx { area }
    }

    /// Convert to a BuildCx with the same area.
    pub fn as_build_cx(&self) -> (cx: BuildCx)
        ensures
            cx.area == self.area,
    {
        BuildCx { area: self.area }
    }
}

/// Unit state type for components with no state.
pub struct UnitState;

/// Complete UI state wrapping the view state.
pub struct UiState<S> {
    /// The view tree state.
    pub view_state: Option<S>,
}

impl<S> UiState<S> {
    /// Create a new UiState, before the first frame.
    pub fn new() -> (u: Self)
        ensures
            u.view_state is None,
    {
        UiState { view_state: None }
    }

    /// The state phase of a frame: the first frame builds the view state
    /// from the builder, every later one rebuilds the state it finds.
    /// Afterwards there is a view state to draw.
    pub fn advance<B, FB: FnOnce(B) -> S, FR: FnOnce(B, S) -> S>(
        &mut self,
        builder: B,
        build: FB,
        rebuild: FR,
    )
        requires
            old(self).view_state is None ==> call_requires(build, (builder,)),
            old(self).view_state matches Some(s) ==> call_requires(rebuild, (builder, s)),
        ensures
            final(self).view_state is Some,
            old(self).view_state is None ==> call_ensures(
                build,
                (builder,),
                final(self).view_state.unwrap(),
            ),
            old(self).view_state matches Some(s) ==> call_ensures(
                rebuild,
                (builder, s),
                final(self).view_state.unwrap(),
            ),
    {
        let previous = self.view_state.take();
        match previous {
            None => {
                self.view_state = Some(build(builder));
            },
            Some(s) => {
                self.view_state = Some(rebuild(builder, s));
            },
        }
    }
}

impl<S> Default for UiState<S> {
    fn default() -> (u: Self)
        ensures
            u.view_state is None,
    {
        Self::new()
    }
}

/// State for an optional component, with the area it was built or rebuilt
/// with.
pub struct OptionState<S> {
    pub inner: Option<S>,
    /// The area this option was built/rebuilt with
    pub area: Rect,
}

impl<S> OptionState<S> {
    /// Builds the state of an optional component: the component's state where
    /// there is one.
    pub fn build_with<B, F: FnOnce(B, Rect) -> S>(builder: Option<B>, area: Rect, build: F) -> (st:
        Self)
        requires
            builder matches Some(b) ==> call_requires(build, (b, area)),
        ensures
            st.area == area,
            builder is None ==> st.inner is None,
            builder matches Some(b) ==> st.inner matches Some(s) && call_ensures(
                build,
                (b, area),
                s,
            ),
    {
        match builder {
            Some(b) => OptionState { inner: Some(build(b, area)), area },
            None => OptionState { inner: None, area },
        }
    }

    /// Rebuilds the state of an optional component: a component that stays is
    /// rebuilt, one that appears is built, one that goes is dropped.
    pub fn rebuild_with<B, FB: FnOnce(B, Rect) -> S, FR: FnOnce(B, Rect, S) -> S>(
        &mut self,
        builder: Option<B>,
        area: Rect,
        build: FB,
        rebuild: FR,
    )
        requires
            builder matches Some(b) ==> (old(self).inner matches Some(s) ==> call_requires(
                rebuild,
                (b, area, s),
            )) && (old(self).inner is None ==> call_requires(build, (b, area))),
        ensures
            final(self).area == area,
            builder is None ==> final(self).inner is None,
            builder matches Some(b) ==> final(self).inner matches Some(n) && (old(
                self,
            ).inner matches Some(s) ==> call_ensures(rebuild, (b, area, s), n)) && (old(
                self,
            ).inner is None ==> call_ensures(build, (b, area), n)),
    {
        self.area = area;
        let previous = self.inner.take();
        match (builder, previous) {
            (Some(b), Some(s)) => {
                self.inner = Some(rebuild(b, area, s));
            },
            (Some(b), None) => {
                self.inner = Some(build(b, area));
            },
            (None, _) => {
                self.inner = None;
            },
        }
    }
}

} // verus!
