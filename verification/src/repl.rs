//! The console session: one input machine, one output machine, one log
//! feed, a focus flag, and the registry of dispatched operations that
//! are still in flight. Submitting never blocks on an outstanding call,
//! two outstanding calls may settle in either order, and each settles
//! with its own originating request.

use vstd::prelude::*;
use vstd::string::StringExecFns;
use crate::command::{parse_line, parse_result_model, spec_diagnostic, spec_parse, spec_tokens,
    CommandModel, ReplCommand};
use crate::ctl::StartCommand;
use crate::dispatch::{appended_output, handle_call, handle_get, handle_link, handle_start,
    handle_stop, outcome_fits, pushed_record, settled, transport_message, wash_cmd_target,
    wash_log_target, CommandOutcome};
use crate::input::{backspaced, history_stepped_back, history_stepped_forward,
    inserted_char, input_reset, line_submitted, moved_left, moved_right, InputState};
use crate::output::{scrolled_down, scrolled_up};
use crate::logbuf::{LogBuffer, LogLevel};
use crate::output::OutputState;

verus! {

/// The keys the console reads, as plain values.
pub enum KeyCode {
    Char(char),
    Left,
    Right,
    Up,
    Down,
    Backspace,
    Enter,
    Tab,
    Other,
}

/// The modifier held with a key: none, shift, or anything else.
pub enum KeyModifier {
    Plain,
    Shift,
    Other,
}

/// One terminal event: a key with its modifier, or anything else.
pub enum TermEvent {
    Key(KeyCode, KeyModifier),
    Other,
}

/// Where one event goes.
pub enum EventRoute {
    ToggleFocus,
    Repl,
    Selector,
}

/// The event table: `Tab` toggles focus; any other key goes to the
/// console while it has focus; everything else goes to the selector.
pub open spec fn spec_route(repl_focus: bool, ev: TermEvent) -> EventRoute {
    match ev {
        TermEvent::Key(KeyCode::Tab, _) => EventRoute::ToggleFocus,
        TermEvent::Key(_, _) => if repl_focus {
            EventRoute::Repl
        } else {
            EventRoute::Selector
        },
        TermEvent::Other => EventRoute::Selector,
    }
}

/// Route one event.
pub fn route_event(repl_focus: bool, ev: &TermEvent) -> (r: EventRoute)
    ensures
        r == spec_route(repl_focus, *ev),
{
    match ev {
        TermEvent::Key(KeyCode::Tab, _) => EventRoute::ToggleFocus,
        TermEvent::Key(_, _) => if repl_focus {
            EventRoute::Repl
        } else {
            EventRoute::Selector
        },
        TermEvent::Other => EventRoute::Selector,
    }
}

/// What `Up` and `Down` do, by modifier: shift scrolls the output panel,
/// no modifier walks the history, anything else is ignored. The same
/// keys serve both panels on purpose; this table is the one place that
/// decides.
pub enum UpDownHandler {
    OutputScroll,
    HistoryNav,
    Ignore,
}

pub open spec fn spec_updown_handler(m: KeyModifier) -> UpDownHandler {
    match m {
        KeyModifier::Shift => UpDownHandler::OutputScroll,
        KeyModifier::Plain => UpDownHandler::HistoryNav,
        KeyModifier::Other => UpDownHandler::Ignore,
    }
}

pub fn updown_handler(m: &KeyModifier) -> (h: UpDownHandler)
    ensures
        h == spec_updown_handler(*m),
{
    match m {
        KeyModifier::Shift => UpDownHandler::OutputScroll,
        KeyModifier::Plain => UpDownHandler::HistoryNav,
        KeyModifier::Other => UpDownHandler::Ignore,
    }
}

/// One dispatched operation that has not settled yet.
pub struct PendingCall {
    pub id: u64,
    pub command: ReplCommand,
}

/// A command that dispatches an operation, as opposed to `clear` and
/// `quit`, which act on the console alone.
pub open spec fn is_op_command(c: ReplCommand) -> bool {
    !(c is Clear) && !(c is Quit)
}

/// The position of the pending call with this id, or `-1` if none.
pub open spec fn pending_index(s: Seq<PendingCall>, id: u64) -> int
    decreases s.len(),
{
    if s.len() == 0 {
        -1
    } else if s[0].id == id {
        0
    } else {
        let r = pending_index(s.skip(1), id);
        if r < 0 {
            -1
        } else {
            1 + r
        }
    }
}

pub proof fn lemma_pending_index(s: Seq<PendingCall>, id: u64)
    ensures
        pending_index(s, id) >= 0 ==> pending_index(s, id) < s.len()
            && s[pending_index(s, id)].id == id,
        pending_index(s, id) < 0 ==> forall|i: int| 0 <= i < s.len() ==> s[i].id != id,
    decreases s.len(),
{
    if s.len() > 0 && s[0].id != id {
        lemma_pending_index(s.skip(1), id);
        let r = pending_index(s.skip(1), id);
        if r >= 0 {
            assert(s[1 + r] == s.skip(1)[r]);
        } else {
            assert forall|i: int| 0 <= i < s.len() implies s[i].id != id by {
                if i > 0 {
                    assert(s.skip(1)[i - 1].id != id);
                }
            }
        }
    }
}

/// The first position whose id matches is the index the search finds.
pub proof fn lemma_pending_index_at(s: Seq<PendingCall>, id: u64, k: int)
    requires
        0 <= k <= s.len(),
        forall|j: int| 0 <= j < k ==> s[j].id != id,
        k < s.len() ==> s[k].id == id,
    ensures
        k < s.len() ==> pending_index(s, id) == k,
        k == s.len() ==> pending_index(s, id) == -1,
    decreases s.len(),
{
    if s.len() == 0 {
    } else if k == 0 {
    } else {
        assert(s[0].id != id);
        assert forall|j: int| 0 <= j < k - 1 implies s.skip(1)[j].id != id by {
            assert(s.skip(1)[j] == s[j + 1]);
        }
        if k - 1 < s.skip(1).len() {
            assert(s.skip(1)[k - 1] == s[k]);
        }
        lemma_pending_index_at(s.skip(1), id, k - 1);
    }
}

/// What submitting the current line did.
pub enum SubmitOutcome {
    Quit,
    Cleared,
    ParseFailed,
    Dispatched(u64),
}

/// What one key did: an edit of the console's state, or a submitted
/// line with its outcome.
pub enum KeyEffect {
    Edited,
    Submitted(SubmitOutcome),
}

/// The console session.
pub struct WashRepl {
    pub input_state: InputState,
    pub output_state: OutputState,
    pub logs: LogBuffer,
    pub repl_focus: bool,
    pub pending: Vec<PendingCall>,
    pub next_call_id: u64,
}

/// Everything but the input machine kept as it was.
pub open spec fn input_framed(pre: WashRepl, post: WashRepl) -> bool {
    &&& post.output_state == pre.output_state
    &&& post.logs.log() == pre.logs.log()
    &&& post.pending == pre.pending
    &&& post.next_call_id == pre.next_call_id
    &&& post.repl_focus == pre.repl_focus
}

/// Everything but the output machine kept as it was.
pub open spec fn output_framed(pre: WashRepl, post: WashRepl) -> bool {
    &&& post.input_state == pre.input_state
    &&& post.logs.log() == pre.logs.log()
    &&& post.pending == pre.pending
    &&& post.next_call_id == pre.next_call_id
    &&& post.repl_focus == pre.repl_focus
}

/// What submitting a line does, by what the line parses to: a parse
/// failure is logged at info level and nothing is dispatched; `quit`
/// logs a goodbye and signals termination, dispatching nothing; `clear`
/// resets the input machine; any operation is registered under a fresh
/// id, to be performed by the caller, and typing is free to continue
/// meanwhile. The output panel never changes at submit time.
pub open spec fn submitted_transition(pre: WashRepl, post: WashRepl, r: SubmitOutcome) -> bool {
    let parsed = spec_parse(spec_tokens(pre.input_state.input@));
    &&& post.output_state == pre.output_state
    &&& post.repl_focus == pre.repl_focus
    &&& match parsed {
        Err(e) => {
            &&& r == SubmitOutcome::ParseFailed
            &&& line_submitted(pre.input_state, post.input_state)
            &&& pushed_record(pre.logs.log(), post.logs.log(), LogLevel::Info, "WASH_CMD"@,
                spec_diagnostic(e))
            &&& post.pending == pre.pending
            &&& post.next_call_id == pre.next_call_id
        },
        Ok(m) => match m {
            CommandModel::Quit => {
                &&& r == SubmitOutcome::Quit
                &&& line_submitted(pre.input_state, post.input_state)
                &&& pushed_record(pre.logs.log(), post.logs.log(), LogLevel::Info,
                    "WASH_CMD"@, "Goodbye"@)
                &&& post.pending == pre.pending
                &&& post.next_call_id == pre.next_call_id
            },
            CommandModel::Clear => {
                &&& r == SubmitOutcome::Cleared
                &&& input_reset(post.input_state)
                &&& pushed_record(pre.logs.log(), post.logs.log(), LogLevel::Info,
                    "WASH_LOG"@, "Clearing REPL history"@)
                &&& post.pending == pre.pending
                &&& post.next_call_id == pre.next_call_id
            },
            _ => {
                &&& r == SubmitOutcome::Dispatched(pre.next_call_id)
                &&& line_submitted(pre.input_state, post.input_state)
                &&& post.next_call_id == pre.next_call_id + 1
                &&& post.pending@ == pre.pending@.push(post.pending@.last())
                &&& post.pending@.last().id == pre.next_call_id
                &&& post.pending@.last().command.model() == m
                &&& post.pending@.last().command.opts_are_default()
                &&& match m {
                    CommandModel::StartActor { actor_ref, .. } => pushed_record(
                        pre.logs.log(), post.logs.log(), LogLevel::Info, "WASH_CMD"@,
                        "Sending request to start actor "@ + actor_ref),
                    CommandModel::StartProvider { provider_ref, .. } => pushed_record(
                        pre.logs.log(), post.logs.log(), LogLevel::Info, "WASH_CMD"@,
                        "Sending request to start provider "@ + provider_ref),
                    _ => post.logs.log() == pre.logs.log(),
                }
            },
        },
    }
}

impl WashRepl {
    /// Cursors in bounds; pending ids unique, below the next fresh id,
    /// and every pending entry an operation.
    pub open spec fn wf(&self) -> bool {
        &&& self.input_state.wf()
        &&& self.output_state.wf()
        &&& forall|i: int| 0 <= i < self.pending@.len()
            ==> (#[trigger] self.pending@[i]).id < self.next_call_id
                && is_op_command(self.pending@[i].command)
        &&& forall|i: int, j: int| 0 <= i < j < self.pending@.len()
            ==> self.pending@[i].id != self.pending@[j].id
    }

    pub fn new() -> (s: Self)
        ensures
            s.input_state.history@ == Seq::<Vec<char>>::empty(),
            s.input_state.input@ == Seq::<char>::empty(),
            s.output_state.log() == Seq::<Seq<char>>::empty(),
            s.logs.log() == Seq::<crate::logbuf::LogRecord>::empty(),
            s.repl_focus,
            s.pending@ == Seq::<PendingCall>::empty(),
            s.next_call_id == 0,
            s.wf(),
    {
        WashRepl {
            input_state: InputState::new(),
            output_state: OutputState::new(),
            logs: LogBuffer::new(),
            repl_focus: true,
            pending: Vec::new(),
            next_call_id: 0,
        }
    }

    /// Flip the focus between the console and the log selector, and say
    /// so in one info-level record; nothing else moves.
    pub fn toggle_focus(&mut self)
        ensures
            final(self).repl_focus == !old(self).repl_focus,
            pushed_record(old(self).logs.log(), final(self).logs.log(), LogLevel::Info,
                "WASH_CMD"@, if final(self).repl_focus {
                    "Switched command focus to REPL"@
                } else {
                    "Switched command focus to Logger selector"@
                }),
            final(self).input_state == old(self).input_state,
            final(self).output_state == old(self).output_state,
            final(self).pending == old(self).pending,
            final(self).next_call_id == old(self).next_call_id,
    {
        self.repl_focus = !self.repl_focus;
        if self.repl_focus {
            self.logs.append(LogLevel::Info, wash_cmd_target(),
                String::from_str("Switched command focus to REPL"));
        } else {
            self.logs.append(LogLevel::Info, wash_cmd_target(),
                String::from_str("Switched command focus to Logger selector"));
        }
    }

    /// Submit the current line: commit it to the history, parse it, and
    /// either log the failure, act on `clear` or `quit`, or register one
    /// fresh operation for the caller to perform.
    pub fn submit_line(&mut self) -> (r: SubmitOutcome)
        requires
            old(self).wf(),
            old(self).next_call_id < u64::MAX,
            old(self).input_state.input_width > 0 ==> old(self).input_state.multiline_input
                + old(self).input_state.input.len() / old(self).input_state.input_width
                <= usize::MAX,
        ensures
            submitted_transition(*old(self), *final(self), r),
            final(self).wf(),
    {
        let line = self.input_state.submit();
        let parsed = parse_line(&line);
        match parsed {
            Err(e) => {
                let d = e.diagnostic();
                self.logs.append(LogLevel::Info, wash_cmd_target(), d);
                SubmitOutcome::ParseFailed
            },
            Ok(cmd) => match cmd {
                ReplCommand::Quit => {
                    self.logs.append(LogLevel::Info, wash_cmd_target(),
                        String::from_str("Goodbye"));
                    SubmitOutcome::Quit
                },
                ReplCommand::Clear => {
                    self.logs.append(LogLevel::Info, wash_log_target(),
                        String::from_str("Clearing REPL history"));
                    self.input_state.clear();
                    SubmitOutcome::Cleared
                },
                op => {
                    match &op {
                        ReplCommand::Start(StartCommand::Actor(a)) => {
                            let mut m = String::from_str("Sending request to start actor ");
                            m.append(a.actor_ref.as_str());
                            self.logs.append(LogLevel::Info, wash_cmd_target(), m);
                        },
                        ReplCommand::Start(StartCommand::Provider(p)) => {
                            let mut m = String::from_str(
                                "Sending request to start provider ");
                            m.append(p.provider_ref.as_str());
                            self.logs.append(LogLevel::Info, wash_cmd_target(), m);
                        },
                        _ => {},
                    }
                    let id = self.next_call_id;
                    self.next_call_id = id + 1;
                    let ghost pre_pending = self.pending@;
                    self.pending.push(PendingCall { id, command: op });
                    proof {
                        assert(self.pending@.last() == self.pending@[pre_pending.len() as int]);
                        assert forall|i: int, j: int| 0 <= i < j < self.pending@.len()
                            implies self.pending@[i].id != self.pending@[j].id by {
                            if j < pre_pending.len() {
                                assert(self.pending@[i] == pre_pending[i]);
                                assert(self.pending@[j] == pre_pending[j]);
                            } else {
                                assert(self.pending@[i] == pre_pending[i]);
                            }
                        }
                    }
                    SubmitOutcome::Dispatched(id)
                },
            },
        }
    }

    /// Whether an operation with this id is still in flight.
    pub fn has_pending(&self, id: u64) -> (b: bool)
        ensures
            b == (pending_index(self.pending@, id) >= 0),
    {
        let mut i: usize = 0;
        while i < self.pending.len()
            invariant
                i <= self.pending.len(),
                forall|j: int| 0 <= j < i ==> self.pending@[j].id != id,
            decreases self.pending.len() - i,
        {
            if self.pending[i].id == id {
                proof {
                    lemma_pending_index_at(self.pending@, id, i as int);
                }
                return true;
            }
            i = i + 1;
        }
        proof {
            lemma_pending_index_at(self.pending@, id, self.pending@.len() as int);
        }
        false
    }

    /// The request still in flight under this id.
    pub fn pending_command(&self, id: u64) -> (c: &ReplCommand)
        requires
            pending_index(self.pending@, id) >= 0,
        ensures
            *c == self.pending@[pending_index(self.pending@, id)].command,
    {
        let i = self.find_pending(id);
        &self.pending[i].command
    }

    /// Handle one key while the console has focus: editing keys drive
    /// the input machine, shifted arrows scroll the output panel, plain
    /// arrows walk the history, and `Enter` submits the line.
    pub fn handle_key(&mut self, code: KeyCode, modifier: KeyModifier) -> (e: KeyEffect)
        requires
            old(self).wf(),
            code is Enter ==> old(self).next_call_id < u64::MAX
                && (old(self).input_state.input_width > 0
                    ==> old(self).input_state.multiline_input
                        + old(self).input_state.input.len()
                            / old(self).input_state.input_width <= usize::MAX),
        ensures
            final(self).wf(),
            code matches KeyCode::Char(c) ==> e == KeyEffect::Edited
                && input_framed(*old(self), *final(self))
                && inserted_char(old(self).input_state, final(self).input_state, c),
            code is Left ==> e == KeyEffect::Edited
                && input_framed(*old(self), *final(self))
                && moved_left(old(self).input_state, final(self).input_state),
            code is Right ==> e == KeyEffect::Edited
                && input_framed(*old(self), *final(self))
                && moved_right(old(self).input_state, final(self).input_state),
            code is Backspace ==> e == KeyEffect::Edited
                && input_framed(*old(self), *final(self))
                && backspaced(old(self).input_state, final(self).input_state),
            code is Up ==> e == KeyEffect::Edited && match spec_updown_handler(modifier) {
                UpDownHandler::OutputScroll => output_framed(*old(self), *final(self))
                    && scrolled_up(old(self).output_state, final(self).output_state),
                UpDownHandler::HistoryNav => input_framed(*old(self), *final(self))
                    && history_stepped_back(old(self).input_state, final(self).input_state),
                UpDownHandler::Ignore => *final(self) == *old(self),
            },
            code is Down ==> e == KeyEffect::Edited && match spec_updown_handler(modifier) {
                UpDownHandler::OutputScroll => output_framed(*old(self), *final(self))
                    && scrolled_down(old(self).output_state, final(self).output_state),
                UpDownHandler::HistoryNav => input_framed(*old(self), *final(self))
                    && history_stepped_forward(old(self).input_state,
                        final(self).input_state),
                UpDownHandler::Ignore => *final(self) == *old(self),
            },
            code is Enter ==> (e matches KeyEffect::Submitted(s)
                && submitted_transition(*old(self), *final(self), s)),
            code is Tab || code is Other ==> e == KeyEffect::Edited
                && *final(self) == *old(self),
    {
        match code {
            KeyCode::Char(c) => {
                self.input_state.insert(c);
                KeyEffect::Edited
            },
            KeyCode::Left => {
                self.input_state.move_left();
                KeyEffect::Edited
            },
            KeyCode::Right => {
                self.input_state.move_right();
                KeyEffect::Edited
            },
            KeyCode::Backspace => {
                self.input_state.backspace();
                KeyEffect::Edited
            },
            KeyCode::Up => {
                match updown_handler(&modifier) {
                    UpDownHandler::OutputScroll => self.output_state.scroll_up(),
                    UpDownHandler::HistoryNav => self.input_state.history_prev(),
                    UpDownHandler::Ignore => {},
                }
                KeyEffect::Edited
            },
            KeyCode::Down => {
                match updown_handler(&modifier) {
                    UpDownHandler::OutputScroll => self.output_state.scroll_down(),
                    UpDownHandler::HistoryNav => self.input_state.history_next(),
                    UpDownHandler::Ignore => {},
                }
                KeyEffect::Edited
            },
            KeyCode::Enter => KeyEffect::Submitted(self.submit_line()),
            KeyCode::Tab => KeyEffect::Edited,
            KeyCode::Other => KeyEffect::Edited,
        }
    }

    /// The position of the pending call with this id.
    fn find_pending(&self, id: u64) -> (i: usize)
        requires
            pending_index(self.pending@, id) >= 0,
        ensures
            i == pending_index(self.pending@, id),
            i < self.pending@.len(),
            self.pending@[i as int].id == id,
    {
        proof {
            lemma_pending_index(self.pending@, id);
        }
        let mut i: usize = 0;
        while i < self.pending.len()
            invariant
                i <= self.pending.len(),
                forall|j: int| 0 <= j < i ==> self.pending@[j].id != id,
            decreases self.pending.len() - i,
        {
            if self.pending[i].id == id {
                proof {
                    lemma_pending_index_at(self.pending@, id, i as int);
                }
                return i;
            }
            i = i + 1;
        }
        proof {
            lemma_pending_index_at(self.pending@, id, self.pending@.len() as int);
            assert(false);
        }
        0
    }

    /// Settle the operation in flight under `id` with what came back for
    /// it: the entry leaves the registry, and the outcome lands on the
    /// output panel or in the log feed according to its own originating
    /// request — whatever order completions arrive in.
    pub fn complete_call(&mut self, id: u64, outcome: CommandOutcome)
        requires
            old(self).wf(),
            pending_index(old(self).pending@, id) >= 0,
            outcome_fits(
                old(self).pending@[pending_index(old(self).pending@, id)].command,
                outcome,
            ),
        ensures
            final(self).pending@ == old(self).pending@.remove(
                pending_index(old(self).pending@, id)),
            settled(
                old(self).pending@[pending_index(old(self).pending@, id)].command,
                outcome,
                old(self).output_state,
                final(self).output_state,
                old(self).logs.log(),
                final(self).logs.log(),
            ),
            final(self).input_state == old(self).input_state,
            final(self).repl_focus == old(self).repl_focus,
            final(self).next_call_id == old(self).next_call_id,
            final(self).wf(),
    {
        let i = self.find_pending(id);
        let entry = self.pending.remove(i);
        let ghost pre_pending = old(self).pending@;
        proof {
            assert forall|a: int, b: int| 0 <= a < b < self.pending@.len()
                implies self.pending@[a].id != self.pending@[b].id by {
                let a0 = if a < i as int { a } else { a + 1 };
                let b0 = if b < i as int { b } else { b + 1 };
                assert(self.pending@[a] == pre_pending[a0]);
                assert(self.pending@[b] == pre_pending[b0]);
            }
            assert forall|k: int| 0 <= k < self.pending@.len()
                implies (#[trigger] self.pending@[k]).id < self.next_call_id
                    && is_op_command(self.pending@[k].command) by {
                let k0 = if k < i as int { k } else { k + 1 };
                assert(self.pending@[k] == pre_pending[k0]);
            }
        }
        match entry.command {
            ReplCommand::Get(g) => handle_get(&g, outcome, &mut self.output_state,
                &mut self.logs),
            ReplCommand::Call(c) => handle_call(&c, outcome, &mut self.output_state,
                &mut self.logs),
            ReplCommand::Link(l) => handle_link(&l, outcome, &mut self.output_state,
                &mut self.logs),
            ReplCommand::Start(s) => handle_start(&s, outcome, &mut self.output_state,
                &mut self.logs),
            ReplCommand::Stop(s) => handle_stop(&s, outcome, &mut self.output_state,
                &mut self.logs),
            ReplCommand::Clear => {
                proof {
                    assert(false);
                }
            },
            ReplCommand::Quit => {
                proof {
                    assert(false);
                }
            },
        }
    }
}

} // verus!
