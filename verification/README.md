# ravel-tui

The core of a terminal UI backend for `ravel` on top of `ratatui`, with its
logic stated in contracts and proved with Verus.

- `src/` is the verified library:
  - `geometry` – rectangles, centred rectangles (by percentage or fixed size),
    the inner area of a bordered block (through `ratatui::widgets::Block::inner`)
    and layout splitting (through `ratatui::layout::Layout::split`);
  - `layout` – stacks, spacers and centred containers;
  - `modal` – modal popups and layers;
  - `block` – bordered containers and styled wrappers;
  - `list` – list selection (through `ratatui::widgets::ListState`), clamping on
    rebuild and rendering of items with the selected one flagged;
  - `input` – the edit buffer of a text input (through `tui_input::Input::handle`);
  - `text` – text, string and formatted-value states;
  - `throbber` – the animation counter of a spinner;
  - `lib.rs` – build contexts, the frame state and optional components.
- `app/` connects those builders and states to ravel's `Builder` and `State`
  traits and draws them into a ratatui `Frame`.
- `tests/` exercises the library on concrete values.
