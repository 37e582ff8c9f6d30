//! Text rendering builders and the states they leave.

use ratatui::style::Style;
use vstd::prelude::*;
use vstd::string::to_string_from_display_ensures;

verus! {

/// A text builder for rendering styled text.
pub struct Text {
    pub content: String,
    pub style: Style,
    pub wrap: bool,
}

/// Create a text builder from a string: default style, no wrapping.
pub fn text(content: String) -> (t: Text)
    ensures
        t.content@ == content@,
        !t.wrap,
{
    Text { content, style: Style::new(), wrap: false }
}

impl Text {
    /// Set the style for this text.
    pub fn style(self, style: Style) -> (t: Self)
        ensures
            t.content@ == self.content@,
            t.style == style,
            t.wrap == self.wrap,
    {
        Text { content: self.content, style, wrap: self.wrap }
    }

    /// Enable word wrapping.
    pub fn wrap(self) -> (t: Self)
        ensures
            t.content@ == self.content@,
            t.style == self.style,
            t.wrap,
    {
        Text { content: self.content, style: self.style, wrap: true }
    }

    /// The state of the text: its content, style and wrapping.
    pub fn build(self) -> (s: TextState)
        ensures
            s.content@ == self.content@,
            s.style == self.style,
            s.wrap == self.wrap,
    {
        TextState { content: self.content, style: self.style, wrap: self.wrap }
    }

    /// Replaces the state's content, style and wrapping with the builder's.
    pub fn rebuild(self, state: &mut TextState)
        ensures
            final(state).content@ == self.content@,
            final(state).style == self.style,
            final(state).wrap == self.wrap,
    {
        state.content = self.content;
        state.style = self.style;
        state.wrap = self.wrap;
    }
}

/// State for a text component.
pub struct TextState {
    pub content: String,
    pub style: Style,
    pub wrap: bool,
}

/// State for a static string.
pub struct StaticStrState {
    pub content: &'static str,
}

impl StaticStrState {
    /// The state of a string literal used as a view.
    pub fn build(content: &'static str) -> (s: Self)
        ensures
            s.content@ == content@,
    {
        StaticStrState { content }
    }

    /// Replaces the string.
    pub fn rebuild(&mut self, content: &'static str)
        ensures
            final(self).content@ == content@,
    {
        self.content = content;
    }
}

/// State for an owned string.
pub struct StringState {
    pub content: String,
}

impl StringState {
    /// The state of an owned string used as a view.
    pub fn build(content: String) -> (s: Self)
        ensures
            s.content@ == content@,
    {
        StringState { content }
    }

    /// Replaces the string.
    pub fn rebuild(&mut self, content: String)
        ensures
            final(self).content@ == content@,
    {
        self.content = content;
    }
}

/// Builder for formatted display values.
pub struct Display<T> {
    pub value: T,
    pub style: Style,
}

/// Create a display builder that formats a value, in the default style.
pub fn display<T>(value: T) -> (d: Display<T>)
    ensures
        d.value == value,
{
    Display { value, style: Style::new() }
}

impl<T> Display<T> {
    /// Set the style for this display.
    pub fn style(self, style: Style) -> (d: Self)
        ensures
            d.value == self.value,
            d.style == style,
    {
        Display { value: self.value, style }
    }
}

impl<T: core::fmt::Display> Display<T> {
    /// The state of the display: the value formatted with `to_string`, and
    /// the style.
    pub fn build(self) -> (s: DisplayState)
        ensures
            to_string_from_display_ensures::<T>(&self.value, s.content),
            s.style == self.style,
    {
        DisplayState { content: self.value.to_string(), style: self.style }
    }

    /// Replaces the state's content with the newly formatted value, and its
    /// style.
    pub fn rebuild(self, state: &mut DisplayState)
        ensures
            to_string_from_display_ensures::<T>(&self.value, final(state).content),
            final(state).style == self.style,
    {
        state.content = self.value.to_string();
        state.style = self.style;
    }
}

/// State for a display component: the formatted value and its style.
pub struct DisplayState {
    pub content: String,
    pub style: Style,
}

} // verus!
