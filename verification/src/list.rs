//! Selection state of lists.

use crate::block::BorderType;
use crate::geometry::Borders;
use ratatui::style::Style;
use ratatui::widgets::ListState as TuiListState;
use vstd::prelude::*;

verus! {

/// The scroll offset and the selected index of a list, the values that a
/// `ratatui::widgets::ListState` holds.
#[derive(Clone, Copy, Debug, PartialEq, Eq, Structural)]
pub struct ListSelection {
    /// Index of the first item to be displayed
    pub offset: usize,
    /// Index of the selected item, if any
    pub selected: Option<usize>,
}

/// `ratatui::widgets::ListState::select` on a state with this offset and
/// selection: the selection becomes `index`, and the offset goes back to 0
/// where `index` is `None`.
#[verifier::external_body]
fn tui_select(offset: usize, selected: Option<usize>, index: Option<usize>) -> (r: (
    usize,
    Option<usize>,
))
    ensures
        r.1 == index,
        r.0 == (if index is None { 0 } else { offset }),
{
    let mut state = TuiListState::default().with_offset(offset).with_selected(selected);
    state.select(index);
    (state.offset(), state.selected())
}

/// `ratatui::widgets::ListState::select_next`: selects the item after the
/// selected one, saturating at `usize::MAX`, or the first where none is
/// selected; the offset stays.
#[verifier::external_body]
fn tui_select_next(offset: usize, selected: Option<usize>) -> (r: (usize, Option<usize>))
    ensures
        r.1 == next_selected(selected),
        r.0 == offset,
{
    let mut state = TuiListState::default().with_offset(offset).with_selected(selected);
    state.select_next();
    (state.offset(), state.selected())
}

/// `ratatui::widgets::ListState::select_previous`: selects the item before
/// the selected one, saturating at 0, or `usize::MAX` (the last item once the
/// list is drawn) where none is selected; the offset stays.
#[verifier::external_body]
fn tui_select_previous(offset: usize, selected: Option<usize>) -> (r: (usize, Option<usize>))
    ensures
        r.1 == previous_selected(selected),
        r.0 == offset,
{
    let mut state = TuiListState::default().with_offset(offset).with_selected(selected);
    state.select_previous();
    (state.offset(), state.selected())
}

/// The selection after moving down: the item after the selected one,
/// saturating at `usize::MAX`, or the first where none is selected.
pub open spec fn next_selected(selected: Option<usize>) -> Option<usize> {
    Some(
        match selected {
            Some(i) => i.saturating_add(1),
            None => 0usize,
        },
    )
}

/// The selection after moving up: the item before the selected one,
/// saturating at 0, or `usize::MAX` where none is selected.
pub open spec fn previous_selected(selected: Option<usize>) -> Option<usize> {
    Some(
        match selected {
            Some(i) => i.saturating_sub(1),
            None => usize::MAX,
        },
    )
}

/// The state after selecting `index`: the selection becomes `index`, and the
/// offset goes back to 0 where `index` is `None`.
pub open spec fn after_select(s: ListSelection, index: Option<usize>) -> ListSelection {
    ListSelection { offset: if index is None { 0 } else { s.offset }, selected: index }
}

/// The selection is an index of a list of `item_count` items, and there is
/// one exactly when the list has items.
pub open spec fn selection_fits(selected: Option<usize>, item_count: nat) -> bool {
    match selected {
        Some(i) => i < item_count,
        None => item_count == 0,
    }
}

/// The selection after a rebuild with `item_count` items: a selection past
/// the end moves to the last item (or to none in an empty list), and an
/// empty selection moves to the first item of a list that has one.
pub open spec fn clamped_selection(selected: Option<usize>, item_count: nat) -> Option<usize> {
    match selected {
        Some(i) => if i >= item_count {
            if item_count == 0 {
                None
            } else {
                Some((item_count - 1) as usize)
            }
        } else {
            Some(i)
        },
        None => if item_count > 0 {
            Some(0usize)
        } else {
            None
        },
    }
}

/// The offset after a rebuild: it goes back to 0 where the selection is
/// cleared.
pub open spec fn clamped_offset(s: ListSelection, item_count: nat) -> usize {
    match s.selected {
        Some(i) => if i >= item_count && item_count == 0 {
            0
        } else {
            s.offset
        },
        None => s.offset,
    }
}

/// The border drawn around a list.
pub struct ListBlock {
    pub title: Option<String>,
    pub borders: Borders,
    pub border_type: BorderType,
    pub style: Style,
}

/// A stateful list builder that maintains selection state: the items, how
/// each is rendered, the optional border and the style of the selected item.
pub struct ListBuilder<'a, T, F> {
    pub items: &'a [T],
    pub render_item: F,
    pub block: Option<ListBlock>,
    pub highlight_style: Style,
}

/// State for a list builder: which item is selected, the rendered items and
/// how they are drawn.
pub struct ListBuilderState<R> {
    pub list_state: ListSelection,
    pub items: Vec<R>,
    pub block: Option<ListBlock>,
    pub highlight_style: Style,
}

impl<R> ListBuilderState<R> {
    /// The state of a list that has not been built: no items, the first
    /// item selected, no scroll, no border.
    pub fn new(highlight_style: Style) -> (s: Self)
        ensures
            s.list_state == (ListSelection { offset: 0, selected: Some(0) }),
            s.items@.len() == 0,
            s.block is None,
            s.highlight_style == highlight_style,
    {
        let (offset, selected): (usize, Option<usize>) = tui_select(0, None, Some(0));
        ListBuilderState {
            list_state: ListSelection { offset, selected },
            items: Vec::new(),
            block: None,
            highlight_style,
        }
    }

    /// Get the currently selected index.
    pub fn selected(&self) -> (r: Option<usize>)
        ensures
            r == self.list_state.selected,
    {
        self.list_state.selected
    }

    /// Select a specific index.
    pub fn select(&mut self, index: Option<usize>)
        ensures
            final(self).list_state == after_select(old(self).list_state, index),
    {
        let (offset, selected): (usize, Option<usize>) = tui_select(self.list_state.offset, self.list_state.selected, index);
        self.list_state = ListSelection { offset, selected };
    }

    /// Move selection up.
    pub fn select_previous(&mut self)
        ensures
            final(self).list_state.selected == previous_selected(old(self).list_state.selected),
            final(self).list_state.offset == old(self).list_state.offset,
    {
        let (offset, selected): (usize, Option<usize>) = tui_select_previous(
            self.list_state.offset,
            self.list_state.selected,
        );
        self.list_state = ListSelection { offset, selected };
    }

    /// Move selection down.
    pub fn select_next(&mut self)
        ensures
            final(self).list_state.selected == next_selected(old(self).list_state.selected),
            final(self).list_state.offset == old(self).list_state.offset,
    {
        let (offset, selected): (usize, Option<usize>) = tui_select_next(self.list_state.offset, self.list_state.selected);
        self.list_state = ListSelection { offset, selected };
    }
}

/// Renders each item with `render_item`, which receives the item, its index
/// and whether it is the selected one.
pub fn render_items_with_selection<T, R, F: Fn(&T, usize, bool) -> R>(
    items: &[T],
    render_item: &F,
    selected: Option<usize>,
) -> (rendered: Vec<R>)
    requires
        forall|i: int|
            0 <= i < items@.len() ==> call_requires(
                *render_item,
                (&items@[i], i as usize, selected == Some(i as usize)),
            ),
    ensures
        rendered@.len() == items@.len(),
        forall|i: int|
            0 <= i < items@.len() ==> call_ensures(
                *render_item,
                (&items@[i], i as usize, selected == Some(i as usize)),
                #[trigger] rendered@[i],
            ),
{
    let mut rendered: Vec<R> = Vec::new();
    let mut i: usize = 0;
    while i < items.len()
        invariant
            i <= items@.len(),
            rendered@.len() == i,
            forall|j: int|
                0 <= j < items@.len() ==> call_requires(
                    *render_item,
                    (&items@[j], j as usize, selected == Some(j as usize)),
                ),
            forall|j: int|
                0 <= j < i ==> call_ensures(
                    *render_item,
                    (&items@[j], j as usize, selected == Some(j as usize)),
                    #[trigger] rendered@[j],
                ),
        decreases items@.len() - i,
    {
        let is_selected = match selected {
            Some(s) => s == i,
            None => false,
        };
        let r = render_item(&items[i], i, is_selected);
        rendered.push(r);
        i = i + 1;
    }
    rendered
}

/// The selection of a list freshly built with `item_count` items: the first
/// item selected where there is one, no scroll.
pub fn initial_selection(item_count: usize) -> (s: ListSelection)
    ensures
        s.offset == 0,
        s.selected == (if item_count > 0 { Some(0usize) } else { None }),
{
    let mut s = ListSelection { offset: 0, selected: None };
    if item_count > 0 {
        let (offset, selected): (usize, Option<usize>) = tui_select(s.offset, s.selected, Some(0));
        s = ListSelection { offset, selected };
    }
    s
}

/// The selection of a list rebuilt with `item_count` items.
pub fn clamp_selection(s: ListSelection, item_count: usize) -> (r: ListSelection)
    ensures
        r.selected == clamped_selection(s.selected, item_count as nat),
        r.offset == clamped_offset(s, item_count as nat),
{
    match s.selected {
        Some(selected) => {
            if selected >= item_count {
                let last = item_count.checked_sub(1);
                let (offset, sel): (usize, Option<usize>) = tui_select(s.offset, s.selected, last);
                ListSelection { offset, selected: sel }
            } else {
                s
            }
        },
        None => {
            if item_count > 0 {
                let (offset, sel): (usize, Option<usize>) = tui_select(s.offset, s.selected, Some(0));
                ListSelection { offset, selected: sel }
            } else {
                s
            }
        },
    }
}

/// A rounded border on all sides (the default block, whose title and style
/// are stated apart).
pub open spec fn is_default_block(b: ListBlock) -> bool {
    &&& b.borders == Borders::spec_all()
    &&& b.border_type == BorderType::Rounded
}

impl<'a, T, F> ListBuilder<'a, T, F> {
    /// Add a block around the list.
    pub fn block(self) -> (l: Self)
        ensures
            l.block matches Some(b) && b.title is None && is_default_block(b),
            l.items == self.items,
            l.render_item == self.render_item,
            l.highlight_style == self.highlight_style,
    {
        ListBuilder {
            items: self.items,
            render_item: self.render_item,
            block: Some(
                ListBlock {
                    title: None,
                    borders: Borders::all(),
                    border_type: BorderType::Rounded,
                    style: Style::new(),
                },
            ),
            highlight_style: self.highlight_style,
        }
    }

    /// Set the block title; a list without a block gets the default one.
    pub fn title(self, title: String) -> (l: Self)
        ensures
            l.block matches Some(b) && b.title == Some(title) && (self.block matches Some(
                old_block,
            ) ==> b.borders == old_block.borders && b.border_type == old_block.border_type
                && b.style == old_block.style) && (self.block is None ==> is_default_block(b)),
            l.items == self.items,
            l.render_item == self.render_item,
            l.highlight_style == self.highlight_style,
    {
        let block = match self.block {
            Some(b) => ListBlock {
                title: Some(title),
                borders: b.borders,
                border_type: b.border_type,
                style: b.style,
            },
            None => ListBlock {
                title: Some(title),
                borders: Borders::all(),
                border_type: BorderType::Rounded,
                style: Style::new(),
            },
        };
        ListBuilder {
            items: self.items,
            render_item: self.render_item,
            block: Some(block),
            highlight_style: self.highlight_style,
        }
    }

    /// Set the block style; a list without a block stays without one.
    pub fn block_style(self, style: Style) -> (l: Self)
        ensures
            self.block is None ==> l.block is None,
            self.block matches Some(b) ==> l.block matches Some(n) && n.title == b.title
                && n.borders == b.borders && n.border_type == b.border_type && n.style == style,
            l.items == self.items,
            l.render_item == self.render_item,
            l.highlight_style == self.highlight_style,
    {
        let block = match self.block {
            Some(b) => Some(
                ListBlock {
                    title: b.title,
                    borders: b.borders,
                    border_type: b.border_type,
                    style,
                },
            ),
            None => None,
        };
        ListBuilder {
            items: self.items,
            render_item: self.render_item,
            block,
            highlight_style: self.highlight_style,
        }
    }

    /// Set the highlight style for selected items.
    pub fn highlight_style(self, style: Style) -> (l: Self)
        ensures
            l.block == self.block,
            l.items == self.items,
            l.render_item == self.render_item,
            l.highlight_style == style,
    {
        ListBuilder {
            items: self.items,
            render_item: self.render_item,
            block: self.block,
            highlight_style: style,
        }
    }
}

impl<'a, T, R, F: Fn(&T, usize, bool) -> R> ListBuilder<'a, T, F> {
    /// The items can be rendered whatever is selected.
    pub open spec fn renders_all(&self) -> bool {
        forall|i: int, s: bool|
            0 <= i < self.items@.len() ==> #[trigger] call_requires(
                self.render_item,
                (&self.items@[i], i as usize, s),
            )
    }

    /// Every item rendered, with the `i`-th flagged as selected exactly where
    /// `selected` is `Some(i)`.
    pub open spec fn rendered_with(&self, selected: Option<usize>, rendered: Seq<R>) -> bool {
        &&& rendered.len() == self.items@.len()
        &&& forall|i: int|
            0 <= i < self.items@.len() ==> call_ensures(
                self.render_item,
                (&self.items@[i], i as usize, selected == Some(i as usize)),
                #[trigger] rendered[i],
            )
    }

    /// The state of a freshly built list: the first item selected where there
    /// is one, every item rendered, the border and highlight style taken over.
    pub fn build(self) -> (st: ListBuilderState<R>)
        requires
            self.renders_all(),
        ensures
            st.list_state.offset == 0,
            st.list_state.selected == (if self.items@.len() > 0 {
                Some(0usize)
            } else {
                None
            }),
            self.rendered_with(st.list_state.selected, st.items@),
            st.block == self.block,
            st.highlight_style == self.highlight_style,
    {
        let list_state = initial_selection(self.items.len());
        let items = render_items_with_selection(self.items, &self.render_item, list_state.selected);
        ListBuilderState {
            list_state,
            items,
            block: self.block,
            highlight_style: self.highlight_style,
        }
    }

    /// Rebuilds the state of a list: the selection is clamped to the new
    /// items, every item is rendered again with the resulting selection, and
    /// the border and highlight style are taken over.
    pub fn rebuild(self, state: &mut ListBuilderState<R>)
        requires
            self.renders_all(),
        ensures
            final(state).list_state.selected == clamped_selection(
                old(state).list_state.selected,
                self.items@.len(),
            ),
            final(state).list_state.offset == clamped_offset(
                old(state).list_state,
                self.items@.len(),
            ),
            self.rendered_with(final(state).list_state.selected, final(state).items@),
            final(state).block == self.block,
            final(state).highlight_style == self.highlight_style,
    {
        state.list_state = clamp_selection(state.list_state, self.items.len());
        state.items = render_items_with_selection(
            self.items,
            &self.render_item,
            state.list_state.selected,
        );
        state.block = self.block;
        state.highlight_style = self.highlight_style;
    }
}

/// A list built with items has its first item selected, and one built
/// without items has no selection; either way the selection fits the list.
pub proof fn lemma_built_selection_fits(item_count: usize)
    ensures
        selection_fits(
            if item_count > 0 { Some(0usize) } else { None },
            item_count as nat,
        ),
{
}

/// After a rebuild the selection fits the list, whatever it was before.
pub proof fn lemma_refresh_fits(selected: Option<usize>, item_count: usize)
    ensures
        selection_fits(clamped_selection(selected, item_count as nat), item_count as nat),
{
}

/// A rebuild with items moves any selection past the end to the last item,
/// however far past the end it was, and leaves the offset.
pub proof fn lemma_clamp_past_end(offset: usize, i: usize, item_count: usize)
    requires
        item_count > 0,
        i >= item_count,
    ensures
        clamped_selection(Some(i), item_count as nat) == Some((item_count - 1) as usize),
        clamped_offset(ListSelection { offset, selected: Some(i) }, item_count as nat) == offset,
{
}

/// A rebuild with no items clears any selection and the offset; a rebuild
/// with items of a list without selection selects the first item.
pub proof fn lemma_clamp_empty_and_appearing(offset: usize, selected: Option<usize>, item_count: usize)
    ensures
        item_count == 0 ==> clamped_selection(selected, 0) is None,
        item_count == 0 && selected is Some ==> clamped_offset(
            ListSelection { offset, selected },
            0,
        ) == 0,
        item_count > 0 && selected is None ==> clamped_selection(selected, item_count as nat)
            == Some(0usize),
{
}

/// A selection that fits the list is left as it is by a rebuild, and so is
/// the offset.
pub proof fn lemma_refresh_keeps_fitting(s: ListSelection, item_count: usize)
    requires
        selection_fits(s.selected, item_count as nat),
    ensures
        clamped_selection(s.selected, item_count as nat) == s.selected,
        clamped_offset(s, item_count as nat) == s.offset,
{
}

/// Rebuilding twice with the same items selects what rebuilding once does.
pub proof fn lemma_refresh_idempotent(s: ListSelection, item_count: usize)
    ensures
        ({
            let once = ListSelection {
                offset: clamped_offset(s, item_count as nat),
                selected: clamped_selection(s.selected, item_count as nat),
            };
            &&& clamped_selection(once.selected, item_count as nat) == once.selected
            &&& clamped_offset(once, item_count as nat) == once.offset
        }),
{
}

/// The selected index reads back as the one last selected, and a second
/// selection overrides the first.
pub proof fn lemma_select_then_selected(s: ListSelection, first: Option<usize>, index: Option<usize>)
    ensures
        after_select(s, index).selected == index,
        after_select(after_select(s, first), index).selected == index,
{
}

/// Moving down and then up returns to the selected item, unless it is the
/// last index there is.
pub proof fn lemma_next_then_previous(i: usize)
    requires
        i < usize::MAX,
    ensures
        previous_selected(next_selected(Some(i))) == Some(i),
{
}

/// Moving up and then down returns to the selected item, unless it is the
/// first.
pub proof fn lemma_previous_then_next(i: usize)
    requires
        i > 0,
    ensures
        next_selected(previous_selected(Some(i))) == Some(i),
{
}

/// Moving up stops at the first item, and moving down at the last index.
pub proof fn lemma_selection_saturates()
    ensures
        previous_selected(Some(0usize)) == Some(0usize),
        next_selected(Some(usize::MAX)) == Some(usize::MAX),
{
}

/// The parts of a simple list item: the prefix, an arrow and a space for the
/// selected item and two spaces for the others; the text; and whether the
/// item is drawn highlighted, which it is where selected.
pub fn simple_item_parts(text: String, is_selected: bool) -> (r: (String, String, bool))
    ensures
        r.0@ == (if is_selected { "\u{2192} "@ } else { "  "@ }),
        r.1@ == text@,
        r.2 == is_selected,
{
    let prefix = if is_selected {
        String::from_str("\u{2192} ")
    } else {
        String::from_str("  ")
    };
    (prefix, text, is_selected)
}

/// Trait for outputs that can receive list selection.
pub trait ListOutput {
    fn set_selection(&mut self, index: Option<usize>);
}

} // verus!
