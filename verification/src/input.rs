//! Input state machine: the current line buffer with its cursor, the
//! command history with its own cursor, and the caret arithmetic that
//! places a one-dimensional cursor on a wrapped two-dimensional panel.

use vstd::prelude::*;

verus! {

/// The display width, in terminal columns, of one character.
pub uninterp spec fn char_display_width(c: char) -> nat;

/// Relies on `unicode_width::UnicodeWidthChar::width`: the column width
/// of one character under UAX #11, `None` for a control character (taken
/// as zero here). It depends on the character alone, is at most three,
/// and is exactly one for printable ASCII.
#[verifier::external_body]
fn measured_char_width(c: char) -> (w: usize)
    ensures
        w == char_display_width(c),
        w <= 3,
        (' ' <= c && c <= '~') ==> w == 1,
{
    unicode_width::UnicodeWidthChar::width(c).unwrap_or(0)
}

/// The display width of one character, in terminal columns: zero for a
/// control character, at most three, and exactly one for printable
/// ASCII.
pub fn char_width(c: char) -> (w: usize)
    ensures
        w == char_display_width(c),
        w <= 3,
        (' ' <= c && c <= '~') ==> w == 1,
{
    measured_char_width(c)
}

/// One step of caret placement: add the width of the next character to
/// the running column; a column total that lands exactly on `width`
/// wraps to the start of the next row, and one that would pass `width`
/// rolls the whole character onto the next row instead of splitting it.
pub open spec fn advance_position(col: nat, row: nat, w: nat, width: nat) -> (nat, nat)
    recommends
        width >= 1,
{
    let c = col + w;
    if c == width {
        (0nat, row + 1)
    } else if c > width {
        ((c - width + w - 1) as nat, row + 1)
    } else {
        (c, row)
    }
}

/// The caret position after walking the first `k` characters of `line`.
pub open spec fn spec_cursor_position(line: Seq<char>, k: int, width: nat) -> (nat, nat)
    decreases k,
{
    if k <= 0 {
        (0nat, 0nat)
    } else {
        let p = spec_cursor_position(line, k - 1, width);
        advance_position(p.0, p.1, char_display_width(line[k - 1]), width)
    }
}

/// On a line of single-width characters the caret lands at column
/// `k mod width`, row `k / width`; in particular a cursor at an exact
/// multiple of `width` sits at column zero of row `k / width`.
pub proof fn lemma_cursor_position_single_width(line: Seq<char>, k: int, width: nat)
    requires
        width >= 1,
        0 <= k <= line.len(),
        forall|i: int| 0 <= i < line.len() ==> char_display_width(line[i]) == 1,
    ensures
        spec_cursor_position(line, k, width) == (((k as nat) % width), ((k as nat) / width)),
    decreases k,
{
    if k == 0 {
    } else {
        lemma_cursor_position_single_width(line, k - 1, width);
        let w = width as int;
        let q = (k - 1) / w;
        let r = (k - 1) % w;
        vstd::arithmetic::div_mod::lemma_fundamental_div_mod(k - 1, w);
        vstd::arithmetic::div_mod::lemma_mod_bound(k - 1, w);
        assert(k - 1 == w * q + r);
        assert(w * q == q * w) by (nonlinear_arith);
        if r + 1 == w {
            assert(k == (q + 1) * w + 0) by (nonlinear_arith)
                requires
                    k - 1 == q * w + r,
                    r + 1 == w,
            ;
            vstd::arithmetic::div_mod::lemma_fundamental_div_mod_converse(k, w, q + 1, 0);
        } else {
            vstd::arithmetic::div_mod::lemma_fundamental_div_mod_converse(k, w, q, r + 1);
        }
    }
}

/// The input prompt.
pub fn prompt() -> (p: &'static str)
    ensures
        p@ == "wash> "@,
{
    "wash> "
}

/// The input panel's scroll offset: three rows are reserved for borders
/// and padding, and once the history plus the extra multi-line rows
/// outgrow the panel, the view shifts so the prompt stays two rows above
/// the bottom border.
pub open spec fn spec_input_scroll(history_len: nat, multiline: nat, height: nat) -> nat {
    if history_len + multiline + 3 >= height {
        (history_len + multiline + 5 - height) as nat
    } else {
        0
    }
}

/// The width left for typed text inside the input panel: the panel minus
/// its two border columns and the prompt.
pub open spec fn spec_input_width(panel_width: nat) -> nat {
    if panel_width >= 8 {
        (panel_width - 8) as nat
    } else {
        0
    }
}

/// A character went in at the cursor: the line grew by one there and
/// the cursor moved just past it; nothing else moved.
pub open spec fn inserted_char(pre: InputState, post: InputState, c: char) -> bool {
    &&& post.input@ == pre.input@.take(pre.input_cursor as int) + seq![c]
        + pre.input@.skip(pre.input_cursor as int)
    &&& post.input_cursor == pre.input_cursor + 1
    &&& post.history == pre.history
    &&& post.history_cursor == pre.history_cursor
    &&& post.multiline_input == pre.multiline_input
    &&& post.input_width == pre.input_width
}

/// The cursor stepped one place left, stopping at the start.
pub open spec fn moved_left(pre: InputState, post: InputState) -> bool {
    &&& post.input_cursor == if pre.input_cursor > 0 {
        (pre.input_cursor - 1) as int
    } else {
        0
    }
    &&& post.input == pre.input
    &&& post.history == pre.history
    &&& post.history_cursor == pre.history_cursor
    &&& post.multiline_input == pre.multiline_input
    &&& post.input_width == pre.input_width
}

/// The cursor stepped one place right, stopping at the end.
pub open spec fn moved_right(pre: InputState, post: InputState) -> bool {
    &&& post.input_cursor == if pre.input_cursor < pre.input.len() {
        pre.input_cursor + 1
    } else {
        pre.input_cursor as int
    }
    &&& post.input == pre.input
    &&& post.history == pre.history
    &&& post.history_cursor == pre.history_cursor
    &&& post.multiline_input == pre.multiline_input
    &&& post.input_width == pre.input_width
}

/// The character before the cursor went away, if there was one.
pub open spec fn backspaced(pre: InputState, post: InputState) -> bool {
    &&& pre.input_cursor > 0 ==> {
        &&& post.input@ == pre.input@.remove(pre.input_cursor - 1)
        &&& post.input_cursor == pre.input_cursor - 1
    }
    &&& pre.input_cursor == 0 ==> post.input == pre.input && post.input_cursor == 0
    &&& post.history == pre.history
    &&& post.history_cursor == pre.history_cursor
    &&& post.multiline_input == pre.multiline_input
    &&& post.input_width == pre.input_width
}

/// One step to an older history entry, which is loaded whole; at the
/// oldest entry nothing happens.
pub open spec fn history_stepped_back(pre: InputState, post: InputState) -> bool {
    &&& pre.history_cursor == 0 ==> post == pre
    &&& pre.history_cursor > 0 ==> {
        &&& post.history_cursor == pre.history_cursor - 1
        &&& post.input@ == pre.history@[pre.history_cursor - 1]@
        &&& post.input_cursor == post.input.len()
    }
    &&& post.history == pre.history
    &&& post.multiline_input == pre.multiline_input
    &&& post.input_width == pre.input_width
}

/// One step to a newer history entry, which is loaded whole; stepping
/// past the newest entry clears the line instead of failing.
pub open spec fn history_stepped_forward(pre: InputState, post: InputState) -> bool {
    &&& post.history_cursor == if pre.history_cursor < pre.history.len() {
        pre.history_cursor + 1
    } else {
        pre.history_cursor as int
    }
    &&& post.history_cursor < post.history.len() ==> {
        &&& post.input@ == post.history@[post.history_cursor as int]@
        &&& post.input_cursor == post.input.len()
    }
    &&& post.history_cursor == post.history.len() ==> {
        &&& post.input@ == Seq::<char>::empty()
        &&& post.input_cursor == 0
    }
    &&& post.history == pre.history
    &&& post.multiline_input == pre.multiline_input
    &&& post.input_width == pre.input_width
}

/// The line was taken: pushed onto the history, the history cursor at
/// the newest end, the line and its cursor reset, the multi-line offset
/// grown by the rows the line filled.
pub open spec fn line_submitted(pre: InputState, post: InputState) -> bool {
    &&& post.history@ == pre.history@.push(pre.input)
    &&& post.history_cursor == post.history.len()
    &&& post.input@ == Seq::<char>::empty()
    &&& post.input_cursor == 0
    &&& post.input_width == pre.input_width
    &&& post.multiline_input == pre.multiline_input + if pre.input_width > 0 {
        pre.input.len() as int / pre.input_width as int
    } else {
        0
    }
}

/// A full reset: history, line, cursors, offsets and the measured width
/// all return to the initial state.
pub open spec fn input_reset(post: InputState) -> bool {
    &&& post.history@ == Seq::<Vec<char>>::empty()
    &&& post.history_cursor == 0
    &&& post.input@ == Seq::<char>::empty()
    &&& post.input_cursor == 0
    &&& post.multiline_input == 0
    &&& post.input_width == 0
}

/// The REPL's editable state: current line and cursor, submitted-line
/// history and its cursor, the extra rows claimed by past multi-line
/// inputs, and the measured width of the input region.
pub struct InputState {
    pub history: Vec<Vec<char>>,
    pub history_cursor: usize,
    pub input: Vec<char>,
    pub input_cursor: usize,
    pub multiline_input: usize,
    pub input_width: usize,
}

impl InputState {
    /// Both cursors stay within their buffers.
    pub open spec fn wf(&self) -> bool {
        &&& self.input_cursor <= self.input.len()
        &&& self.history_cursor <= self.history.len()
    }

    pub fn new() -> (s: Self)
        ensures
            s.history@ == Seq::<Vec<char>>::empty(),
            s.history_cursor == 0,
            s.input@ == Seq::<char>::empty(),
            s.input_cursor == 0,
            s.multiline_input == 0,
            s.input_width == 0,
            s.wf(),
    {
        InputState {
            history: Vec::new(),
            history_cursor: 0,
            input: Vec::new(),
            input_cursor: 0,
            multiline_input: 0,
            input_width: 0,
        }
    }

    /// Insert a character at the cursor: the line grows by one and the
    /// cursor moves just past the new character.
    pub fn insert(&mut self, c: char)
        requires
            old(self).wf(),
        ensures
            inserted_char(*old(self), *final(self), c),
            final(self).input.len() == old(self).input.len() + 1,
            final(self).wf(),
    {
        self.input.insert(self.input_cursor, c);
        let grown = self.input.len();
        proof {
            assert(self.input_cursor < grown);
        }
        self.input_cursor = self.input_cursor + 1;
        proof {
            assert(final(self).input@ =~= old(self).input@.take(old(self).input_cursor as int)
                + seq![c] + old(self).input@.skip(old(self).input_cursor as int));
        }
    }

    /// Step the cursor one place left, stopping at the start of the line.
    pub fn move_left(&mut self)
        requires
            old(self).wf(),
        ensures
            moved_left(*old(self), *final(self)),
            final(self).wf(),
    {
        if self.input_cursor > 0 {
            self.input_cursor = self.input_cursor - 1;
        }
    }

    /// Step the cursor one place right, stopping at the end of the line.
    pub fn move_right(&mut self)
        requires
            old(self).wf(),
        ensures
            moved_right(*old(self), *final(self)),
            final(self).wf(),
    {
        if self.input_cursor < self.input.len() {
            self.input_cursor = self.input_cursor + 1;
        }
    }

    /// Delete the character just before the cursor, if any.
    pub fn backspace(&mut self)
        requires
            old(self).wf(),
        ensures
            backspaced(*old(self), *final(self)),
            final(self).wf(),
    {
        if self.input_cursor > 0 {
            self.input_cursor = self.input_cursor - 1;
            self.input.remove(self.input_cursor);
        }
    }

    /// Step to the next older history entry and load it; at the oldest
    /// entry this is a no-op.
    pub fn history_prev(&mut self)
        requires
            old(self).wf(),
        ensures
            history_stepped_back(*old(self), *final(self)),
            final(self).wf(),
    {
        if self.history_cursor > 0 {
            self.history_cursor = self.history_cursor - 1;
            let ghost src = self.history@[self.history_cursor as int]@;
            let entry = &self.history[self.history_cursor];
            self.input = entry.clone();
            proof {
                assert forall|j: int| 0 <= j < src.len() implies self.input@[j] == src[j] by {
                    assert(cloned::<char>(src[j], self.input@[j]));
                }
                assert(self.input@ =~= src);
            }
            self.input_cursor = self.input.len();
        }
    }

    /// Step to the next newer history entry and load it; stepping past
    /// the newest entry clears the line instead of failing.
    pub fn history_next(&mut self)
        requires
            old(self).wf(),
        ensures
            history_stepped_forward(*old(self), *final(self)),
            final(self).wf(),
    {
        if self.history_cursor < self.history.len() {
            self.history_cursor = self.history_cursor + 1;
        }
        if self.history_cursor < self.history.len() {
            let ghost src = self.history@[self.history_cursor as int]@;
            let entry = &self.history[self.history_cursor];
            self.input = entry.clone();
            proof {
                assert forall|j: int| 0 <= j < src.len() implies self.input@[j] == src[j] by {
                    assert(cloned::<char>(src[j], self.input@[j]));
                }
                assert(self.input@ =~= src);
            }
            self.input_cursor = self.input.len();
        } else {
            self.input = Vec::new();
            self.input_cursor = 0;
        }
    }

    /// Take the completed line: it is pushed onto the history, the
    /// history cursor returns to the newest end, the line and cursor
    /// reset to empty, and any extra rows the line occupied are added to
    /// the multi-line offset.
    pub fn submit(&mut self) -> (line: Vec<char>)
        requires
            old(self).wf(),
            old(self).input_width > 0 ==> old(self).multiline_input
                + old(self).input.len() / old(self).input_width <= usize::MAX,
        ensures
            line@ == old(self).input@,
            line_submitted(*old(self), *final(self)),
            final(self).wf(),
    {
        if self.input_width > 0 {
            let rows = self.input.len() / self.input_width;
            self.multiline_input = self.multiline_input + rows;
        }
        let mut taken: Vec<char> = Vec::new();
        core::mem::swap(&mut taken, &mut self.input);
        let line = taken.clone();
        proof {
            assert forall|j: int| 0 <= j < taken@.len() implies line@[j] == taken@[j] by {
                assert(cloned::<char>(taken@[j], line@[j]));
            }
            assert(line@ =~= taken@);
        }
        self.history.push(taken);
        self.history_cursor = self.history.len();
        self.input_cursor = 0;
        line
    }

    /// Full reset: history, line, cursors and offsets all return to the
    /// initial state; the measured width is kept.
    pub fn clear(&mut self)
        ensures
            input_reset(*final(self)),
            final(self).wf(),
    {
        self.history = Vec::new();
        self.history_cursor = 0;
        self.input = Vec::new();
        self.input_cursor = 0;
        self.multiline_input = 0;
        self.input_width = 0;
    }

    /// The scroll offset of the input panel at this height.
    pub fn input_scroll(&self, panel_height: usize) -> (off: usize)
        requires
            self.history.len() + self.multiline_input + 5 <= usize::MAX,
        ensures
            off == spec_input_scroll(
                self.history.len() as nat,
                self.multiline_input as nat,
                panel_height as nat,
            ),
    {
        let filled = self.history.len() + self.multiline_input;
        if panel_height <= 3 || filled >= panel_height - 3 {
            filled + 5 - panel_height
        } else {
            0
        }
    }

    /// Record the measured panel width: what remains for text once the
    /// borders and the prompt have their columns.
    pub fn measure_width(&mut self, panel_width: usize)
        requires
            old(self).wf(),
        ensures
            final(self).input_width == spec_input_width(panel_width as nat),
            final(self).input == old(self).input,
            final(self).input_cursor == old(self).input_cursor,
            final(self).history == old(self).history,
            final(self).history_cursor == old(self).history_cursor,
            final(self).multiline_input == old(self).multiline_input,
            final(self).wf(),
    {
        if panel_width >= 8 {
            self.input_width = panel_width - 8;
        } else {
            self.input_width = 0;
        }
    }

    /// Where the caret sits, as `(column, row)`, after walking the
    /// characters before the cursor and wrapping at `width` columns.
    pub fn cursor_location(&self, width: usize) -> (pos: (usize, usize))
        requires
            self.wf(),
            width >= 1,
            4 * self.input.len() + 4 <= usize::MAX,
        ensures
            (pos.0 as nat, pos.1 as nat) == spec_cursor_position(
                self.input@,
                self.input_cursor as int,
                width as nat,
            ),
    {
        let mut col: usize = 0;
        let mut row: usize = 0;
        let mut i: usize = 0;
        while i < self.input_cursor
            invariant
                self.wf(),
                i <= self.input_cursor,
                width >= 1,
                4 * self.input.len() + 4 <= usize::MAX,
                col <= 4 * i,
                row <= i,
                (col as nat, row as nat) == spec_cursor_position(
                    self.input@,
                    i as int,
                    width as nat,
                ),
            decreases self.input_cursor - i,
        {
            let w = measured_char_width(self.input[i]);
            let c = col + w;
            if c == width {
                col = 0;
                row = row + 1;
            } else if c > width {
                col = c - width + w - 1;
                row = row + 1;
            } else {
                col = c;
            }
            i = i + 1;
        }
        (col, row)
    }
}

impl Default for InputState {
    /// An empty line, empty history, both cursors at zero, and no
    /// measured width yet.
    fn default() -> (s: Self)
        ensures
            s.history@ == Seq::<Vec<char>>::empty(),
            s.history_cursor == 0,
            s.input@ == Seq::<char>::empty(),
            s.input_cursor == 0,
            s.multiline_input == 0,
            s.input_width == 0,
            s.wf(),
    {
        InputState::new()
    }
}

} // verus!
