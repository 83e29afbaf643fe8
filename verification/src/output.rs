//! Output state machine: an append-only scrollback of lines with a
//! selection cursor and a derived scroll offset.

use vstd::prelude::*;

verus! {

/// Index of the first `'\n'` in `s`, or `s.len()` if there is none.
pub open spec fn first_newline(s: Seq<char>) -> int
    decreases s.len(),
{
    if s.len() == 0 {
        0
    } else if s[0] == '\n' {
        0
    } else {
        1 + first_newline(s.skip(1))
    }
}

pub proof fn lemma_first_newline(s: Seq<char>)
    ensures
        0 <= first_newline(s) <= s.len(),
        forall|j: int| 0 <= j < first_newline(s) ==> s[j] != '\n',
        first_newline(s) < s.len() ==> s[first_newline(s)] == '\n',
    decreases s.len(),
{
    if s.len() == 0 {
    } else if s[0] == '\n' {
    } else {
        lemma_first_newline(s.skip(1));
        assert forall|j: int| 0 <= j < first_newline(s) implies s[j] != '\n' by {
            if j > 0 {
                assert(s.skip(1)[j - 1] != '\n');
            }
        }
        if first_newline(s) < s.len() {
            assert(s[first_newline(s)] == s.skip(1)[first_newline(s.skip(1))]);
        }
    }
}

/// The first newline is at `k` exactly when everything before `k` is
/// newline-free and `k` is a newline or the end.
pub proof fn lemma_first_newline_at(s: Seq<char>, k: int)
    requires
        0 <= k <= s.len(),
        forall|j: int| 0 <= j < k ==> s[j] != '\n',
        k < s.len() ==> s[k] == '\n',
    ensures
        first_newline(s) == k,
    decreases s.len(),
{
    if k == 0 {
    } else {
        assert(s[0] != '\n');
        assert forall|j: int| 0 <= j < k - 1 implies s.skip(1)[j] != '\n' by {
            assert(s.skip(1)[j] == s[j + 1]);
        }
        if k - 1 < s.skip(1).len() {
            assert(s.skip(1)[k - 1] == s[k]);
        }
        lemma_first_newline_at(s.skip(1), k - 1);
    }
}

/// The lines of `s`, split at each `'\n'`; text with no newline is one
/// line, and a trailing newline yields a trailing empty line.
pub open spec fn split_lines(s: Seq<char>) -> Seq<Seq<char>>
    decreases s.len(),
    via split_lines_decreases
{
    let i = first_newline(s);
    if i < s.len() {
        seq![s.take(i)] + split_lines(s.skip(i + 1))
    } else {
        seq![s]
    }
}

#[via_fn]
proof fn split_lines_decreases(s: Seq<char>) {
    lemma_first_newline(s);
}

/// How many rows the scrollback is shifted up: three rows are reserved
/// for borders and padding, and once the log outgrows the viewport the
/// offset follows the cursor so the selected line stays visible.
pub open spec fn spec_render_scroll(loglen: nat, cursor: nat, viewport_height: nat) -> nat {
    if loglen + 3 >= viewport_height && cursor >= viewport_height {
        (cursor + 1 - viewport_height) as nat
    } else {
        0
    }
}

/// Raising the viewport never raises the offset, for a fixed cursor and
/// log length.
pub proof fn lemma_render_scroll_monotonic(loglen: nat, cursor: nat, vh1: nat, vh2: nat)
    requires
        vh1 <= vh2,
    ensures
        spec_render_scroll(loglen, cursor, vh2) <= spec_render_scroll(loglen, cursor, vh1),
{
}

/// The selection cursor stepped one line up, stopping at the top;
/// the log itself never moves on a scroll.
pub open spec fn scrolled_up(pre: OutputState, post: OutputState) -> bool {
    &&& post.output_cursor == if pre.output_cursor > 0 {
        (pre.output_cursor - 1) as int
    } else {
        0
    }
    &&& post.output == pre.output
    &&& post.output_width == pre.output_width
}

/// The selection cursor stepped one line down, stopping at the bottom.
pub open spec fn scrolled_down(pre: OutputState, post: OutputState) -> bool {
    &&& post.output_cursor == if pre.output_cursor < pre.output.len() {
        pre.output_cursor + 1
    } else {
        pre.output_cursor as int
    }
    &&& post.output == pre.output
    &&& post.output_width == pre.output_width
}

/// One output panel: an append-only log of lines, a selection cursor and
/// the measured panel width. The scroll offset is always recomputed from
/// the cursor and the viewport; it is never stored as truth of its own.
pub struct OutputState {
    pub output: Vec<String>,
    pub output_cursor: usize,
    pub output_width: usize,
}

impl OutputState {
    /// The log as a sequence of lines of characters.
    pub open spec fn log(&self) -> Seq<Seq<char>> {
        self.output.deep_view()
    }

    /// The cursor always lies within `[0, len(log)]`.
    pub open spec fn wf(&self) -> bool {
        self.output_cursor <= self.output.len()
    }

    pub fn new() -> (s: Self)
        ensures
            s.log() == Seq::<Seq<char>>::empty(),
            s.output_cursor == 0,
            s.output_width == 80,
            s.wf(),
    {
        let s = OutputState { output: Vec::new(), output_cursor: 0, output_width: 80 };
        proof {
            assert(s.output.deep_view() =~= Seq::<Seq<char>>::empty());
        }
        s
    }

    /// Step the selection cursor one line up, stopping at the top.
    pub fn scroll_up(&mut self)
        ensures
            scrolled_up(*old(self), *final(self)),
    {
        if self.output_cursor > 0 {
            self.output_cursor = self.output_cursor - 1;
        }
    }

    /// Step the selection cursor one line down, stopping at `len(log)`.
    pub fn scroll_down(&mut self)
        requires
            old(self).wf(),
        ensures
            scrolled_down(*old(self), *final(self)),
            final(self).wf(),
    {
        if self.output_cursor < self.output.len() {
            self.output_cursor = self.output_cursor + 1;
        }
    }

    /// The scroll offset for a viewport of the given height.
    pub fn render_scroll(&self, viewport_height: usize) -> (off: usize)
        requires
            viewport_height >= 1,
        ensures
            off == spec_render_scroll(
                self.log().len(),
                self.output_cursor as nat,
                viewport_height as nat,
            ),
    {
        if (viewport_height <= 3 || self.output.len() >= viewport_height - 3)
            && self.output_cursor >= viewport_height {
            self.output_cursor - viewport_height + 1
        } else {
            0
        }
    }

    /// Append a message: one log line per newline-separated piece, then a
    /// blank separator line, and the cursor returns to the bottom whatever
    /// scroll position was chosen before.
    pub fn append(&mut self, text: &str)
        requires
            old(self).wf(),
        ensures
            final(self).log() == old(self).log() + split_lines(text@) + seq![Seq::<char>::empty()],
            final(self).output_cursor == final(self).output.len(),
            final(self).output_width == old(self).output_width,
            final(self).wf(),
    {
        let ghost pre = self.output.deep_view();
        proof {
            assert(self.output.deep_view().skip(pre.len() as int)
                =~= Seq::<Seq<char>>::empty());
            assert(text@.skip(0) =~= text@);
            assert(Seq::<Seq<char>>::empty() + split_lines(text@) =~= split_lines(text@));
        }
        let n = text.unicode_len();
        let mut start: usize = 0;
        let mut i: usize = 0;
        while i < n
            invariant
                start <= i <= n,
                n == text@.len(),
                pre.len() <= self.output.len(),
                self.output.deep_view().take(pre.len() as int) == pre,
                split_lines(text@) == self.output.deep_view().skip(pre.len() as int)
                    + split_lines(text@.skip(start as int)),
                forall|j: int| start <= j < i ==> text@[j] != '\n',
                self.output_width == old(self).output_width,
            decreases n - i,
        {
            let c = text.get_char(i);
            if c == '\n' {
                let ghost t = text@.skip(start as int);
                let line = text.substring_char(start, i);
                proof {
                    assert forall|j: int| 0 <= j < i - start implies t[j] != '\n' by {
                        assert(t[j] == text@[start + j]);
                    }
                    assert(t[i - start] == text@[i as int]);
                    lemma_first_newline_at(t, i - start);
                    assert(t.take(i - start) =~= text@.subrange(start as int, i as int));
                    assert(t.skip(i - start + 1) =~= text@.skip(i + 1));
                    assert(split_lines(t) == seq![text@.subrange(start as int, i as int)]
                        + split_lines(text@.skip(i + 1)));
                }
                let ghost dv0 = self.output.deep_view();
                self.output.push(line.to_owned());
                proof {
                    assert(self.output.deep_view() =~= dv0.push(line@));
                    assert(self.output.deep_view().take(pre.len() as int) =~= pre);
                    assert(self.output.deep_view().skip(pre.len() as int)
                        =~= dv0.skip(pre.len() as int).push(line@));
                    assert(dv0.skip(pre.len() as int).push(line@)
                        + split_lines(text@.skip(i + 1))
                        =~= dv0.skip(pre.len() as int) + split_lines(text@.skip(start as int)));
                }
                start = i + 1;
            }
            i = i + 1;
        }
        let ghost t = text@.skip(start as int);
        let last = text.substring_char(start, n);
        proof {
            assert forall|j: int| 0 <= j < t.len() implies t[j] != '\n' by {
                assert(t[j] == text@[start + j]);
            }
            lemma_first_newline_at(t, t.len() as int);
            assert(split_lines(t) == seq![t]);
            assert(t =~= text@.subrange(start as int, n as int));
        }
        let ghost dv0 = self.output.deep_view();
        self.output.push(last.to_owned());
        let ghost dv1 = self.output.deep_view();
        self.output.push(String::new());
        self.output_cursor = self.output.len();
        proof {
            assert(dv1 =~= dv0.push(last@));
            assert(self.output.deep_view() =~= dv1.push(Seq::<char>::empty()));
            assert(self.output.deep_view()
                =~= pre + split_lines(text@) + seq![Seq::<char>::empty()]);
        }
    }
}

impl Default for OutputState {
    /// An empty scrollback: no lines, cursor at the top, width 80 until
    /// the terminal layer measures the panel.
    fn default() -> (s: Self)
        ensures
            s.log() == Seq::<Seq<char>>::empty(),
            s.output_cursor == 0,
            s.output_width == 80,
            s.wf(),
    {
        OutputState::new()
    }
}

} // verus!
