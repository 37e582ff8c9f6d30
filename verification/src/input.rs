//! Text input: the edit buffer of an input field and the requests that
//! change it.

use ratatui::style::Style;
use tui_input::{Input, InputRequest};
use vstd::prelude::*;
use vstd::utf8::encode_utf8;

verus! {

/// An edit of an input's value or cursor.
#[derive(Clone, Copy, Debug, PartialEq, Eq, Structural)]
pub enum EditRequest {
    InsertChar(char),
    DeletePrevChar,
    DeletePrevWord,
    GoToPrevChar,
    GoToNextChar,
    GoToPrevWord,
    GoToNextWord,
}

/// The value and cursor that `tui_input::Input::handle` leaves after the
/// request, on an input with this value and cursor.
pub uninterp spec fn input_handled(value: Seq<char>, cursor: nat, request: EditRequest) -> (
    Seq<char>,
    nat,
);

/// `c` inserted at the cursor, which moves past it.
pub open spec fn inserted(value: Seq<char>, cursor: nat, c: char) -> (Seq<char>, nat) {
    (value.insert(cursor as int, c), cursor + 1)
}

/// The character before the cursor removed, the cursor on its place; at the
/// start nothing changes.
pub open spec fn deleted_prev(value: Seq<char>, cursor: nat) -> (Seq<char>, nat) {
    if cursor == 0 {
        (value, cursor)
    } else {
        (value.remove(cursor - 1), (cursor - 1) as nat)
    }
}

/// The cursor one character back, stopping at the start.
pub open spec fn moved_prev(value: Seq<char>, cursor: nat) -> (Seq<char>, nat) {
    if cursor == 0 {
        (value, cursor)
    } else {
        (value, (cursor - 1) as nat)
    }
}

/// The cursor one character on, stopping at the end.
pub open spec fn moved_next(value: Seq<char>, cursor: nat) -> (Seq<char>, nat) {
    if cursor >= value.len() {
        (value, cursor)
    } else {
        (value, cursor + 1)
    }
}

/// Whether `char::is_alphanumeric` counts `c` as a word character.
pub uninterp spec fn alphanumeric(c: char) -> bool;

/// `char::is_alphanumeric`, the test by which `tui_input::Input::handle`
/// finds word boundaries: its result is named `alphanumeric`. Which
/// characters are alphanumeric (the Unicode classes) is left unsaid.
pub assume_specification[ char::is_alphanumeric ](c: char) -> (b: bool)
    ensures
        b == alphanumeric(c),
;

/// Whether the word edits take `c` for a character of a word.
pub fn is_word_char(c: char) -> (b: bool)
    ensures
        b == alphanumeric(c),
{
    c.is_alphanumeric()
}

/// From position `k`, back over the characters before it that are not word
/// characters.
pub open spec fn back_over_gap(value: Seq<char>, k: nat) -> nat
    decreases k,
{
    if k > 0 && k <= value.len() && !alphanumeric(value[k - 1]) {
        back_over_gap(value, (k - 1) as nat)
    } else {
        k
    }
}

/// From position `k`, back over the word characters before it.
pub open spec fn back_over_word(value: Seq<char>, k: nat) -> nat
    decreases k,
{
    if k > 0 && k <= value.len() && alphanumeric(value[k - 1]) {
        back_over_word(value, (k - 1) as nat)
    } else {
        k
    }
}

/// From position `k`, on over the word characters at and after it.
pub open spec fn on_over_word(value: Seq<char>, k: nat) -> nat
    decreases value.len() - k,
{
    if k < value.len() && alphanumeric(value[k as int]) {
        on_over_word(value, k + 1)
    } else {
        k
    }
}

/// The first word character at or after position `k`, or the end.
pub open spec fn next_word_char(value: Seq<char>, k: nat) -> nat
    decreases value.len() - k,
{
    if k >= value.len() {
        value.len()
    } else if alphanumeric(value[k as int]) {
        k
    } else {
        next_word_char(value, k + 1)
    }
}

/// The start of the word before the cursor: back over any gap, then over
/// the word.
pub open spec fn prev_word_start(value: Seq<char>, cursor: nat) -> nat {
    back_over_word(value, back_over_gap(value, cursor))
}

/// The cursor moved back to the start of the previous word; at the start
/// nothing changes.
pub open spec fn word_moved_prev(value: Seq<char>, cursor: nat) -> (Seq<char>, nat) {
    if cursor == 0 {
        (value, cursor)
    } else {
        (value, prev_word_start(value, cursor))
    }
}

/// The cursor moved on past the rest of the current word to the start of
/// the next one, or to the end; at the end nothing changes.
pub open spec fn word_moved_next(value: Seq<char>, cursor: nat) -> (Seq<char>, nat) {
    if cursor == value.len() {
        (value, cursor)
    } else {
        (value, next_word_char(value, on_over_word(value, cursor)))
    }
}

/// The characters from the start of the previous word to the cursor
/// removed, the cursor at that start; at the start nothing changes.
pub open spec fn word_deleted_prev(value: Seq<char>, cursor: nat) -> (Seq<char>, nat) {
    if cursor == 0 {
        (value, cursor)
    } else {
        let k = prev_word_start(value, cursor);
        (value.take(k as int) + value.skip(cursor as int), k)
    }
}

/// Going back over a gap or a word never passes the start.
proof fn lemma_back_bounds(value: Seq<char>, k: nat)
    requires
        k <= value.len(),
    ensures
        back_over_gap(value, k) <= k,
        back_over_word(value, k) <= k,
        back_over_gap(value, k) == k ==> k == 0 || alphanumeric(value[k - 1]),
        k > 0 && alphanumeric(value[k - 1]) ==> back_over_word(value, k) < k,
    decreases k,
{
    if k > 0 {
        lemma_back_bounds(value, (k - 1) as nat);
    }
}

/// Going on over a word or to the next word character never passes the end.
proof fn lemma_on_bounds(value: Seq<char>, k: nat)
    requires
        k <= value.len(),
    ensures
        k <= on_over_word(value, k) <= value.len(),
        k <= next_word_char(value, k) <= value.len(),
        on_over_word(value, k) == k ==> k == value.len() || !alphanumeric(value[k as int]),
        k < value.len() && !alphanumeric(value[k as int]) ==> k < next_word_char(value, k),
    decreases value.len() - k,
{
    if k < value.len() {
        lemma_on_bounds(value, k + 1);
    }
}

/// Moving back a word ends before the cursor, or at the start; moving on a
/// word ends after it and within the value, or at the end; deleting back a
/// word removes what lies between the new cursor and the old one.
pub proof fn lemma_word_bounds(value: Seq<char>, cursor: nat)
    requires
        cursor <= value.len(),
    ensures
        word_moved_prev(value, cursor).0 == value,
        cursor == 0 ==> word_moved_prev(value, cursor).1 == 0,
        cursor > 0 ==> word_moved_prev(value, cursor).1 < cursor,
        word_moved_next(value, cursor).0 == value,
        cursor == value.len() ==> word_moved_next(value, cursor).1 == cursor,
        cursor < value.len() ==> cursor < word_moved_next(value, cursor).1 <= value.len(),
        word_deleted_prev(value, cursor).1 <= cursor,
        cursor > 0 ==> word_deleted_prev(value, cursor).1 < cursor,
        word_deleted_prev(value, cursor).0 == value.take(word_deleted_prev(value, cursor).1 as int)
            + value.skip(cursor as int),
        word_deleted_prev(value, cursor).1 <= word_deleted_prev(value, cursor).0.len(),
{
    lemma_back_bounds(value, cursor);
    lemma_back_bounds(value, back_over_gap(value, cursor));
    lemma_on_bounds(value, cursor);
    lemma_on_bounds(value, on_over_word(value, cursor));
}

/// The value and cursor that each request leaves. Character edits insert,
/// delete or move by one character. Word edits stop at the boundaries that
/// `alphanumeric` draws: moving back goes over the gap before the cursor and
/// then over the word before it, moving on goes over the rest of the current
/// word and then to the next word character, and deleting back removes what
/// moving back passes over.
pub open spec fn handled_as_stated(
    value: Seq<char>,
    cursor: nat,
    request: EditRequest,
    r: (Seq<char>, nat),
) -> bool {
    match request {
        EditRequest::InsertChar(c) => r == inserted(value, cursor, c),
        EditRequest::DeletePrevChar => r == deleted_prev(value, cursor),
        EditRequest::GoToPrevChar => r == moved_prev(value, cursor),
        EditRequest::GoToNextChar => r == moved_next(value, cursor),
        EditRequest::GoToPrevWord => r == word_moved_prev(value, cursor),
        EditRequest::GoToNextWord => r == word_moved_next(value, cursor),
        EditRequest::DeletePrevWord => r == word_deleted_prev(value, cursor),
    }
}

/// `tui_input::Input::handle` on an input with this value and cursor; gives
/// back the new value and cursor, as `handled_as_stated` describes them, with
/// `alphanumeric` standing for `char::is_alphanumeric`, which `handle` asks of
/// each character it passes over in a word edit.
#[verifier::external_body]
fn tui_input_handle(value: &String, cursor: usize, request: EditRequest) -> (r: (String, usize))
    requires
        cursor <= value@.len(),
        value@.len() < usize::MAX,
    ensures
        (r.0@, r.1 as nat) == input_handled(value@, cursor as nat, request),
        handled_as_stated(value@, cursor as nat, request, (r.0@, r.1 as nat)),
{
    let mut input = Input::new(value.clone()).with_cursor(cursor);
    input.handle(match request {
        EditRequest::InsertChar(c) => InputRequest::InsertChar(c),
        EditRequest::DeletePrevChar => InputRequest::DeletePrevChar,
        EditRequest::DeletePrevWord => InputRequest::DeletePrevWord,
        EditRequest::GoToPrevChar => InputRequest::GoToPrevChar,
        EditRequest::GoToNextChar => InputRequest::GoToNextChar,
        EditRequest::GoToPrevWord => InputRequest::GoToPrevWord,
        EditRequest::GoToNextWord => InputRequest::GoToNextWord,
    });
    (input.value().to_string(), input.cursor())
}

/// A text input builder.
pub struct InputBuilder {
    pub style: Style,
    /// Whether to mask the input (for passwords).
    pub masked: bool,
}

/// Create an input builder: default style, not masked.
pub fn input() -> (b: InputBuilder)
    ensures
        !b.masked,
{
    InputBuilder { style: Style::new(), masked: false }
}

impl InputBuilder {
    /// Set the input style.
    pub fn style(self, style: Style) -> (b: Self)
        ensures
            b.style == style,
            b.masked == self.masked,
    {
        InputBuilder { style, masked: self.masked }
    }

    /// Mask the input (for passwords).
    pub fn masked(self) -> (b: Self)
        ensures
            b.style == self.style,
            b.masked,
    {
        InputBuilder { style: self.style, masked: true }
    }

    /// The state of a new input: empty, the cursor at the start, with the
    /// builder's style and masking.
    pub fn build(self) -> (s: InputBuilderState)
        ensures
            s.content() == Seq::<char>::empty(),
            s.cursor() == 0,
            s.style() == self.style,
            s.is_masked() == self.masked,
    {
        InputBuilderState { value: String::new(), cursor: 0, style: self.style, masked: self.masked }
    }

    /// Takes over the builder's style and masking; the value and the cursor
    /// stay.
    pub fn rebuild(self, state: &mut InputBuilderState)
        ensures
            final(state).content() == old(state).content(),
            final(state).cursor() == old(state).cursor(),
            final(state).style() == self.style,
            final(state).is_masked() == self.masked,
    {
        proof {
            use_type_invariant(&*state);
        }
        state.style = self.style;
        state.masked = self.masked;
    }
}

/// State for an input builder.
pub struct InputBuilderState {
    value: String,
    cursor: usize,
    style: Style,
    masked: bool,
}

impl InputBuilderState {
    /// The cursor stands on a character of the value or just past its end,
    /// and can still move one further.
    #[verifier::type_invariant]
    spec fn cursor_in_value(self) -> bool {
        &&& self.cursor <= self.value@.len()
        &&& self.value@.len() < usize::MAX
    }

    /// The characters of the value.
    pub closed spec fn content(self) -> Seq<char> {
        self.value@
    }

    /// The position of the cursor, counted in characters.
    pub closed spec fn cursor(self) -> nat {
        self.cursor as nat
    }

    pub closed spec fn style(self) -> Style {
        self.style
    }

    pub closed spec fn is_masked(self) -> bool {
        self.masked
    }

    /// Applies `request` to the value and the cursor.
    pub fn apply(&mut self, request: EditRequest)
        requires
            request is InsertChar ==> old(self).content().len() + 1 < usize::MAX,
        ensures
            final(self).cursor() <= final(self).content().len(),
            (final(self).content(), final(self).cursor()) == input_handled(
                old(self).content(),
                old(self).cursor(),
                request,
            ),
            handled_as_stated(
                old(self).content(),
                old(self).cursor(),
                request,
                (final(self).content(), final(self).cursor()),
            ),
            final(self).style() == old(self).style(),
            final(self).is_masked() == old(self).is_masked(),
    {
        proof {
            use_type_invariant(&*self);
        }
        let (value, cursor): (String, usize) = tui_input_handle(&self.value, self.cursor, request);
        proof {
            lemma_word_bounds(self.value@, self.cursor as nat);
        }
        *self = InputBuilderState { value, cursor, style: self.style, masked: self.masked };
    }

    /// Get the current input value.
    pub fn value(&self) -> (v: &str)
        ensures
            v@ == self.content(),
    {
        self.value.as_str()
    }

    /// The position of the cursor, counted in characters.
    pub fn cursor_position(&self) -> (c: usize)
        ensures
            c == self.cursor(),
            c <= self.content().len(),
    {
        proof {
            use_type_invariant(self);
        }
        self.cursor
    }

    /// The style the input is drawn with.
    pub fn input_style(&self) -> (s: Style)
        ensures
            s == self.style(),
    {
        self.style
    }

    /// Whether the input is drawn masked.
    pub fn masked(&self) -> (m: bool)
        ensures
            m == self.is_masked(),
    {
        self.masked
    }

    /// Handle a character input.
    pub fn insert_char(&mut self, c: char)
        requires
            old(self).content().len() + 1 < usize::MAX,
        ensures
            final(self).cursor() <= final(self).content().len(),
            (final(self).content(), final(self).cursor()) == inserted(
                old(self).content(),
                old(self).cursor(),
                c,
            ),
            final(self).style() == old(self).style(),
            final(self).is_masked() == old(self).is_masked(),
    {
        self.apply(EditRequest::InsertChar(c));
    }

    /// Handle backspace.
    pub fn delete_prev_char(&mut self)
        ensures
            final(self).cursor() <= final(self).content().len(),
            (final(self).content(), final(self).cursor()) == deleted_prev(
                old(self).content(),
                old(self).cursor(),
            ),
            final(self).style() == old(self).style(),
            final(self).is_masked() == old(self).is_masked(),
    {
        self.apply(EditRequest::DeletePrevChar);
    }

    /// Handle delete previous word.
    pub fn delete_prev_word(&mut self)
        ensures
            final(self).cursor() <= final(self).content().len(),
            (final(self).content(), final(self).cursor()) == input_handled(
                old(self).content(),
                old(self).cursor(),
                EditRequest::DeletePrevWord,
            ),
            (final(self).content(), final(self).cursor()) == word_deleted_prev(
                old(self).content(),
                old(self).cursor(),
            ),
            final(self).cursor() <= old(self).cursor(),
            old(self).cursor() > 0 ==> final(self).cursor() < old(self).cursor(),
            final(self).content() == old(self).content().take(final(self).cursor() as int)
                + old(self).content().skip(old(self).cursor() as int),
            final(self).style() == old(self).style(),
            final(self).is_masked() == old(self).is_masked(),
    {
        proof {
            use_type_invariant(&*self);
            lemma_word_bounds(self.content(), self.cursor());
        }
        self.apply(EditRequest::DeletePrevWord);
    }

    /// Move cursor left.
    pub fn go_to_prev_char(&mut self)
        ensures
            final(self).cursor() <= final(self).content().len(),
            (final(self).content(), final(self).cursor()) == moved_prev(
                old(self).content(),
                old(self).cursor(),
            ),
            final(self).style() == old(self).style(),
            final(self).is_masked() == old(self).is_masked(),
    {
        self.apply(EditRequest::GoToPrevChar);
    }

    /// Move cursor right.
    pub fn go_to_next_char(&mut self)
        ensures
            final(self).cursor() <= final(self).content().len(),
            (final(self).content(), final(self).cursor()) == moved_next(
                old(self).content(),
                old(self).cursor(),
            ),
            final(self).style() == old(self).style(),
            final(self).is_masked() == old(self).is_masked(),
    {
        self.apply(EditRequest::GoToNextChar);
    }

    /// Move cursor to previous word.
    pub fn go_to_prev_word(&mut self)
        ensures
            final(self).cursor() <= final(self).content().len(),
            (final(self).content(), final(self).cursor()) == input_handled(
                old(self).content(),
                old(self).cursor(),
                EditRequest::GoToPrevWord,
            ),
            (final(self).content(), final(self).cursor()) == word_moved_prev(
                old(self).content(),
                old(self).cursor(),
            ),
            final(self).content() == old(self).content(),
            old(self).cursor() == 0 ==> final(self).cursor() == 0,
            old(self).cursor() > 0 ==> final(self).cursor() < old(self).cursor(),
            final(self).style() == old(self).style(),
            final(self).is_masked() == old(self).is_masked(),
    {
        proof {
            use_type_invariant(&*self);
            lemma_word_bounds(self.content(), self.cursor());
        }
        self.apply(EditRequest::GoToPrevWord);
    }

    /// Move cursor to next word.
    pub fn go_to_next_word(&mut self)
        ensures
            final(self).cursor() <= final(self).content().len(),
            (final(self).content(), final(self).cursor()) == input_handled(
                old(self).content(),
                old(self).cursor(),
                EditRequest::GoToNextWord,
            ),
            (final(self).content(), final(self).cursor()) == word_moved_next(
                old(self).content(),
                old(self).cursor(),
            ),
            final(self).content() == old(self).content(),
            old(self).cursor() == old(self).content().len() ==> final(self).cursor()
                == old(self).cursor(),
            old(self).cursor() < old(self).content().len() ==> old(self).cursor()
                < final(self).cursor() <= old(self).content().len(),
            final(self).style() == old(self).style(),
            final(self).is_masked() == old(self).is_masked(),
    {
        proof {
            use_type_invariant(&*self);
            lemma_word_bounds(self.content(), self.cursor());
        }
        self.apply(EditRequest::GoToNextWord);
    }

    /// The text the input shows: its value, or where it is masked one `*`
    /// for each byte of the value's UTF-8 encoding.
    pub fn display_value(&self) -> (d: String)
        ensures
            self.is_masked() ==> d@ == Seq::new(
                encode_utf8(self.content()).len() as usize as nat,
                |_i: int| '*',
            ),
            !self.is_masked() ==> d@ == self.content(),
    {
        if self.masked {
            let n: usize = self.value.as_str().len();
            let mut d = String::new();
            let mut i: usize = 0;
            proof {
                reveal_strlit("*");
            }
            while i < n
                invariant
                    i <= n,
                    d@ == Seq::new(i as nat, |_i: int| '*'),
                    "*"@ == seq!['*'],
                decreases n - i,
            {
                d.append("*");
                i = i + 1;
                assert(d@ =~= Seq::new(i as nat, |_i: int| '*'));
            }
            d
        } else {
            self.value.clone()
        }
    }

    /// Clear the input.
    pub fn clear(&mut self)
        ensures
            final(self).cursor() <= final(self).content().len(),
            final(self).content() == Seq::<char>::empty(),
            final(self).cursor() == 0,
            final(self).style() == old(self).style(),
            final(self).is_masked() == old(self).is_masked(),
    {
        *self = InputBuilderState {
            value: String::new(),
            cursor: 0,
            style: self.style,
            masked: self.masked,
        };
    }
}

/// Backspace undoes the insertion of a character: an input whose value and
/// cursor are those of `before` with `c` inserted is, after deleting the
/// character before the cursor, back at `before`'s value and cursor. At the
/// start of the value, backspace changes nothing.
pub proof fn lemma_backspace_undoes_insert(
    before: InputBuilderState,
    inserted_state: InputBuilderState,
    after: InputBuilderState,
    c: char,
)
    requires
        before.cursor() <= before.content().len(),
        (inserted_state.content(), inserted_state.cursor()) == inserted(
            before.content(),
            before.cursor(),
            c,
        ),
        (after.content(), after.cursor()) == deleted_prev(
            inserted_state.content(),
            inserted_state.cursor(),
        ),
    ensures
        after.content() == before.content(),
        after.cursor() == before.cursor(),
        deleted_prev(before.content(), 0) == (before.content(), 0nat),
{
    lemma_insert_then_delete(before.content(), before.cursor(), c);
}

/// Inserting a character and deleting the one before the cursor gives back
/// the value and the cursor.
pub proof fn lemma_insert_then_delete(value: Seq<char>, cursor: nat, c: char)
    requires
        cursor <= value.len(),
    ensures
        deleted_prev(inserted(value, cursor, c).0, inserted(value, cursor, c).1) == (value, cursor),
{
    assert(value.insert(cursor as int, c).remove(cursor as int) =~= value);
}

/// Moving back a character and on again returns the cursor, unless it was at
/// the start.
pub proof fn lemma_prev_then_next(value: Seq<char>, cursor: nat)
    requires
        0 < cursor <= value.len(),
    ensures
        moved_next(moved_prev(value, cursor).0, moved_prev(value, cursor).1) == (value, cursor),
{
}

/// Moving on a character and back again returns the cursor, unless it was at
/// the end.
pub proof fn lemma_next_then_prev(value: Seq<char>, cursor: nat)
    requires
        cursor < value.len(),
    ensures
        moved_prev(moved_next(value, cursor).0, moved_next(value, cursor).1) == (value, cursor),
{
}

/// Deleting the character before the cursor shortens the value by one and
/// keeps the characters on both sides of it, unless the cursor is at the
/// start.
pub proof fn lemma_delete_prev_keeps_rest(value: Seq<char>, cursor: nat)
    requires
        0 < cursor <= value.len(),
    ensures
        deleted_prev(value, cursor).0.len() == value.len() - 1,
        deleted_prev(value, cursor).0 == value.take(cursor - 1) + value.skip(cursor as int),
{
    assert(value.remove(cursor - 1) =~= value.take(cursor - 1) + value.skip(cursor as int));
}

} // verus!
