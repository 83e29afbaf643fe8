//! The console engine: line editing, history, caret placement, the
//! output scrollback and its scroll arithmetic.

use wash::input::{char_width, InputState};
use wash::output::OutputState;

fn chars(s: &str) -> Vec<char> {
    s.chars().collect()
}

#[test]
fn insert_grows_line_and_advances_cursor() {
    let mut st = InputState::new();
    for (i, c) in "wash".chars().enumerate() {
        st.insert(c);
        assert_eq!(st.input.len(), i + 1);
        assert_eq!(st.input_cursor, i + 1);
    }
    assert_eq!(st.input, chars("wash"));
    // Insert in the middle: cursor sits just past the new character.
    st.move_left();
    st.move_left();
    st.insert('X');
    assert_eq!(st.input, chars("waXsh"));
    assert_eq!(st.input_cursor, 3);
}

#[test]
fn moves_never_leave_the_line() {
    let mut st = InputState::new();
    st.move_left();
    assert_eq!(st.input_cursor, 0);
    st.move_right();
    assert_eq!(st.input_cursor, 0);
    st.insert('a');
    st.insert('b');
    st.move_right();
    st.move_right();
    assert_eq!(st.input_cursor, 2);
    st.move_left();
    st.move_left();
    st.move_left();
    assert_eq!(st.input_cursor, 0);
}

#[test]
fn backspace_removes_before_cursor() {
    let mut st = InputState::new();
    for c in "abc".chars() {
        st.insert(c);
    }
    st.backspace();
    assert_eq!(st.input, chars("ab"));
    st.move_left();
    st.move_left();
    st.backspace();
    assert_eq!(st.input, chars("ab"));
    assert_eq!(st.input_cursor, 0);
}

#[test]
fn history_up_at_oldest_is_a_no_op() {
    let mut st = InputState::new();
    for c in "one".chars() {
        st.insert(c);
    }
    st.submit();
    for c in "two".chars() {
        st.insert(c);
    }
    st.submit();
    assert_eq!(st.history_cursor, 2);
    st.history_prev();
    assert_eq!(st.input, chars("two"));
    st.history_prev();
    assert_eq!(st.input, chars("one"));
    assert_eq!(st.history_cursor, 0);
    st.history_prev();
    assert_eq!(st.input, chars("one"));
    assert_eq!(st.history_cursor, 0);
}

#[test]
fn history_down_past_newest_clears_the_line() {
    let mut st = InputState::new();
    for c in "one".chars() {
        st.insert(c);
    }
    st.submit();
    st.history_prev();
    assert_eq!(st.input, chars("one"));
    st.history_next();
    assert_eq!(st.history_cursor, st.history.len());
    assert!(st.input.is_empty());
    assert_eq!(st.input_cursor, 0);
    // At the newest end it keeps clearing rather than failing.
    st.history_next();
    assert!(st.input.is_empty());
    assert_eq!(st.history_cursor, st.history.len());
}

#[test]
fn submit_commits_to_history_and_resets() {
    let mut st = InputState::new();
    st.input_width = 2;
    for c in "12345".chars() {
        st.insert(c);
    }
    let line = st.submit();
    assert_eq!(line, chars("12345"));
    assert_eq!(st.history, vec![chars("12345")]);
    assert_eq!(st.history_cursor, 1);
    assert!(st.input.is_empty());
    assert_eq!(st.input_cursor, 0);
    // Five columns at width two spill onto two extra rows.
    assert_eq!(st.multiline_input, 2);
}

#[test]
fn clear_is_a_full_reset() {
    let mut st = InputState::new();
    st.input_width = 33;
    for c in "abc".chars() {
        st.insert(c);
    }
    st.submit();
    st.clear();
    assert!(st.history.is_empty());
    assert_eq!(st.history_cursor, 0);
    assert!(st.input.is_empty());
    assert_eq!(st.multiline_input, 0);
    // The width too: it is measured afresh at the next redraw.
    assert_eq!(st.input_width, 0);
}

#[test]
fn cursor_location_single_width_wraps_by_division() {
    let mut st = InputState::new();
    for c in "abcdefghij".chars() {
        st.insert(c);
    }
    // Ten single-width characters at width four: column 10 mod 4, row 10 / 4.
    assert_eq!(st.cursor_location(4), (2, 2));
    // A cursor exactly at a multiple of the width lands at column zero.
    st.move_left();
    st.move_left();
    assert_eq!(st.cursor_location(4), (0, 2));
}

#[test]
fn cursor_location_rolls_wide_characters_whole() {
    let mut st = InputState::new();
    st.insert('a');
    st.insert('\u{3042}'); // a two-column character
    // Width two: 'a' leaves column one; the wide character cannot split,
    // so it rolls wholly onto the next row and the caret lands after it.
    assert_eq!(st.cursor_location(2), (2, 1));
}

#[test]
fn display_widths_follow_the_character() {
    assert_eq!(char_width('a'), 1);
    assert_eq!(char_width(' '), 1);
    assert_eq!(char_width('~'), 1);
    assert_eq!(char_width('\u{3042}'), 2);
    // A control character takes no column.
    assert_eq!(char_width('\u{0007}'), 0);
}

#[test]
fn measure_width_reserves_borders_and_prompt() {
    let mut st = InputState::new();
    st.measure_width(30);
    assert_eq!(st.input_width, 22);
    st.measure_width(5);
    assert_eq!(st.input_width, 0);
}

#[test]
fn input_scroll_keeps_prompt_visible() {
    let mut st = InputState::new();
    for i in 0..12 {
        for c in format!("line{}", i).chars() {
            st.insert(c);
        }
        st.submit();
    }
    assert_eq!(st.input_scroll(20), 0);
    // Twelve history rows in a ten-row panel: 12 + 5 - 10.
    assert_eq!(st.input_scroll(10), 7);
}

#[test]
fn append_splits_lines_and_scrolls_to_bottom() {
    let mut out = OutputState::new();
    out.append("first\nsecond");
    assert_eq!(out.output, vec!["first", "second", ""]);
    assert_eq!(out.output_cursor, 3);
    out.scroll_up();
    out.scroll_up();
    assert_eq!(out.output_cursor, 1);
    // Appending overrides any manual scroll position.
    out.append("third");
    assert_eq!(out.output, vec!["first", "second", "", "third", ""]);
    assert_eq!(out.output_cursor, 5);
}

#[test]
fn scrolls_clamp_to_the_log() {
    let mut out = OutputState::new();
    out.scroll_up();
    assert_eq!(out.output_cursor, 0);
    out.scroll_down();
    assert_eq!(out.output_cursor, 0);
    out.append("x");
    assert_eq!(out.output_cursor, 2);
    out.scroll_down();
    assert_eq!(out.output_cursor, 2);
}

#[test]
fn render_scroll_follows_the_cursor() {
    let mut out = OutputState::new();
    for _ in 0..20 {
        out.append("line");
    }
    // Forty log lines, cursor at the bottom.
    assert_eq!(out.output_cursor, 40);
    assert_eq!(out.render_scroll(10), 31);
    // A short log never scrolls.
    let mut small = OutputState::new();
    small.append("only");
    assert_eq!(small.render_scroll(10), 0);
}

#[test]
fn render_scroll_monotonic_in_viewport_height() {
    let mut out = OutputState::new();
    for _ in 0..20 {
        out.append("line");
    }
    let mut last = out.render_scroll(1);
    for vh in 2..50usize {
        let off = out.render_scroll(vh);
        assert!(off <= last, "offset grew from {} to {} at height {}", last, off, vh);
        last = off;
    }
}
