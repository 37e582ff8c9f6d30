//! The ratatui style that components carry from their builders to drawing.

use ratatui::style::Style;
use vstd::prelude::*;

verus! {

/// `ratatui::style::Style`, carried through unread.
#[verifier::external_type_specification]
#[verifier::external_body]
pub struct ExStyle(Style);

/// `ratatui::style::Style::new`, the default style. Nothing is stated of the
/// value, which the library only carries to the drawing code.
pub assume_specification[ Style::new ]() -> Style;

} // verus!
