use ravel_tui::input::input;

fn typed(text: &str) -> ravel_tui::input::InputBuilderState {
    let mut st = input().build();
    for c in text.chars() {
        st.insert_char(c);
    }
    st
}

#[test]
fn new_input_is_empty() {
    let st = input().build();
    assert_eq!(st.value(), "");
    assert_eq!(st.cursor_position(), 0);
    assert!(!st.masked());
}

#[test]
fn insert_appends_and_moves_cursor() {
    let st = typed("héllo");
    assert_eq!(st.value(), "héllo");
    assert_eq!(st.cursor_position(), 5);
}

#[test]
fn insert_in_the_middle() {
    let mut st = typed("abc");
    st.go_to_prev_char();
    assert_eq!(st.cursor_position(), 2);
    st.insert_char('X');
    assert_eq!(st.value(), "abXc");
    assert_eq!(st.cursor_position(), 3);
}

#[test]
fn insert_then_delete_restores() {
    let mut st = typed("abc");
    st.go_to_prev_char();
    st.insert_char('Z');
    st.delete_prev_char();
    assert_eq!(st.value(), "abc");
    assert_eq!(st.cursor_position(), 2);
}

#[test]
fn delete_at_start_does_nothing() {
    let mut st = typed("ab");
    st.go_to_prev_char();
    st.go_to_prev_char();
    st.go_to_prev_char();
    assert_eq!(st.cursor_position(), 0);
    st.delete_prev_char();
    assert_eq!(st.value(), "ab");
    assert_eq!(st.cursor_position(), 0);
}

#[test]
fn next_char_stops_at_end() {
    let mut st = typed("ab");
    st.go_to_next_char();
    assert_eq!(st.cursor_position(), 2);
    st.go_to_prev_char();
    st.go_to_next_char();
    assert_eq!(st.cursor_position(), 2);
}

#[test]
fn delete_prev_word() {
    let mut st = typed("hello world");
    st.delete_prev_word();
    assert_eq!(st.value(), "hello ");
    assert_eq!(st.cursor_position(), 6);
    st.delete_prev_word();
    assert_eq!(st.value(), "");
    assert_eq!(st.cursor_position(), 0);
}

#[test]
fn delete_prev_word_keeps_text_after_cursor() {
    let mut st = typed("one two three");
    for _ in 0..6 {
        st.go_to_prev_char();
    }
    // cursor after "one two"
    st.delete_prev_word();
    assert_eq!(st.value(), "one  three");
    assert_eq!(st.cursor_position(), 4);
}

#[test]
fn word_moves() {
    let mut st = typed("first second, third.");
    st.go_to_prev_word();
    assert_eq!(st.cursor_position(), 14);
    st.go_to_prev_word();
    assert_eq!(st.cursor_position(), 6);
    st.go_to_prev_word();
    assert_eq!(st.cursor_position(), 0);
    st.go_to_prev_word();
    assert_eq!(st.cursor_position(), 0);
    st.go_to_next_word();
    assert_eq!(st.cursor_position(), 6);
    st.go_to_next_word();
    assert_eq!(st.cursor_position(), 14);
    st.go_to_next_word();
    assert_eq!(st.cursor_position(), 20);
    st.go_to_next_word();
    assert_eq!(st.cursor_position(), 20);
    assert_eq!(st.value(), "first second, third.");
}

#[test]
fn clear_empties_input() {
    let mut st = typed("secret");
    st.clear();
    assert_eq!(st.value(), "");
    assert_eq!(st.cursor_position(), 0);
}

#[test]
fn masked_input_shows_stars_per_byte() {
    let mut st = input().masked().build();
    assert!(st.masked());
    for c in "aé".chars() {
        st.insert_char(c);
    }
    assert_eq!(st.display_value(), "***");
    let plain = typed("aé");
    assert_eq!(plain.display_value(), "aé");
}

#[test]
fn rebuild_keeps_value_and_takes_masking() {
    let mut st = typed("abc");
    input().masked().rebuild(&mut st);
    assert!(st.masked());
    assert_eq!(st.value(), "abc");
    assert_eq!(st.cursor_position(), 3);
}

#[test]
fn word_characters() {
    assert!(ravel_tui::input::is_word_char('a'));
    assert!(ravel_tui::input::is_word_char('7'));
    assert!(ravel_tui::input::is_word_char('é'));
    assert!(!ravel_tui::input::is_word_char(' '));
    assert!(!ravel_tui::input::is_word_char(','));
}

#[test]
fn apply_sends_edit_requests() {
    let mut st = typed("ab cd");
    st.apply(ravel_tui::input::EditRequest::GoToPrevWord);
    assert_eq!(st.cursor_position(), 3);
    st.apply(ravel_tui::input::EditRequest::InsertChar('x'));
    assert_eq!(st.value(), "ab xcd");
    st.apply(ravel_tui::input::EditRequest::DeletePrevWord);
    assert_eq!(st.value(), "ab cd");
    assert_eq!(st.cursor_position(), 3);
    st.apply(ravel_tui::input::EditRequest::GoToNextWord);
    assert_eq!(st.cursor_position(), 5);
}

#[test]
fn next_word_from_a_gap_stops_at_the_next_word() {
    let mut st = typed("a  bc");
    st.apply(ravel_tui::input::EditRequest::GoToPrevChar);
    st.apply(ravel_tui::input::EditRequest::GoToPrevChar);
    st.apply(ravel_tui::input::EditRequest::GoToPrevChar);
    assert_eq!(st.cursor_position(), 2);
    st.go_to_next_word();
    assert_eq!(st.cursor_position(), 3);
}
