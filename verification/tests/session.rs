//! The console session: routing, focus, submitting, and the settling of
//! dispatched operations in any order.

use wash::dispatch::CommandOutcome;
use wash::logbuf::LogLevel;
use wash::repl::{
    route_event, updown_handler, EventRoute, KeyCode, KeyEffect, KeyModifier, SubmitOutcome,
    TermEvent, UpDownHandler, WashRepl,
};

fn type_line(repl: &mut WashRepl, line: &str) {
    for c in line.chars() {
        let e = repl.handle_key(KeyCode::Char(c), KeyModifier::Plain);
        assert!(matches!(e, KeyEffect::Edited));
    }
}

fn submit(repl: &mut WashRepl, line: &str) -> SubmitOutcome {
    type_line(repl, line);
    match repl.handle_key(KeyCode::Enter, KeyModifier::Plain) {
        KeyEffect::Submitted(s) => s,
        KeyEffect::Edited => panic!("enter did not submit"),
    }
}

#[test]
fn tab_toggles_and_keys_follow_focus() {
    let repl = WashRepl::new();
    let tab = TermEvent::Key(KeyCode::Tab, KeyModifier::Plain);
    let a = TermEvent::Key(KeyCode::Char('a'), KeyModifier::Plain);
    let other = TermEvent::Other;
    assert!(matches!(route_event(true, &tab), EventRoute::ToggleFocus));
    assert!(matches!(route_event(false, &tab), EventRoute::ToggleFocus));
    assert!(matches!(route_event(true, &a), EventRoute::Repl));
    assert!(matches!(route_event(false, &a), EventRoute::Selector));
    assert!(matches!(route_event(true, &other), EventRoute::Selector));
    drop(repl);
}

#[test]
fn updown_dual_use_is_decided_by_the_modifier() {
    assert!(matches!(updown_handler(&KeyModifier::Shift), UpDownHandler::OutputScroll));
    assert!(matches!(updown_handler(&KeyModifier::Plain), UpDownHandler::HistoryNav));
    assert!(matches!(updown_handler(&KeyModifier::Other), UpDownHandler::Ignore));
}

#[test]
fn shifted_arrows_scroll_output_while_plain_arrows_walk_history() {
    let mut repl = WashRepl::new();
    let s = submit(&mut repl, "frobnicate");
    assert!(matches!(s, SubmitOutcome::ParseFailed));
    repl.output_state.append("a\nb\nc");
    let bottom = repl.output_state.output_cursor;
    repl.handle_key(KeyCode::Up, KeyModifier::Shift);
    assert_eq!(repl.output_state.output_cursor, bottom - 1);
    repl.handle_key(KeyCode::Down, KeyModifier::Shift);
    assert_eq!(repl.output_state.output_cursor, bottom);
    // A plain Up recalls the submitted line instead.
    repl.handle_key(KeyCode::Up, KeyModifier::Plain);
    let recalled: String = repl.input_state.input.iter().collect();
    assert_eq!(recalled, "frobnicate");
}

#[test]
fn toggle_focus_logs_one_info_line() {
    let mut repl = WashRepl::new();
    let before = repl.logs.records.len();
    repl.toggle_focus();
    assert!(!repl.repl_focus);
    assert_eq!(repl.logs.records.len(), before + 1);
    let rec = &repl.logs.records[before];
    assert_eq!(rec.level, LogLevel::Info);
    assert_eq!(rec.target, "WASH_CMD");
    assert_eq!(rec.message, "Switched command focus to Logger selector");
    repl.toggle_focus();
    assert!(repl.repl_focus);
    assert_eq!(
        repl.logs.records.last().unwrap().message,
        "Switched command focus to REPL"
    );
}

#[test]
fn parse_failure_logs_info_and_dispatches_nothing() {
    let mut repl = WashRepl::new();
    let s = submit(&mut repl, "frobnicate the lattice");
    assert!(matches!(s, SubmitOutcome::ParseFailed));
    assert_eq!(repl.pending.len(), 0);
    assert!(repl.output_state.output.is_empty());
    let rec = repl.logs.records.last().unwrap();
    assert_eq!(rec.level, LogLevel::Info);
    assert_eq!(rec.message, "unknown command: frobnicate");
}

#[test]
fn quit_terminates_immediately_and_dispatches_nothing() {
    let mut repl = WashRepl::new();
    let s = submit(&mut repl, "quit");
    assert!(matches!(s, SubmitOutcome::Quit));
    assert_eq!(repl.pending.len(), 0);
    assert!(repl.output_state.output.is_empty());
    let rec = repl.logs.records.last().unwrap();
    assert_eq!(rec.level, LogLevel::Info);
    assert_eq!(rec.message, "Goodbye");
    // The line is still committed to history before quit is recognized.
    assert_eq!(repl.input_state.history.len(), 1);
}

#[test]
fn clear_resets_the_input_machine() {
    let mut repl = WashRepl::new();
    submit(&mut repl, "get hosts");
    let s = submit(&mut repl, "clear");
    assert!(matches!(s, SubmitOutcome::Cleared));
    assert!(repl.input_state.history.is_empty());
    let rec = repl.logs.records.last().unwrap();
    assert_eq!(rec.level, LogLevel::Info);
    assert_eq!(rec.target, "WASH_LOG");
    assert_eq!(rec.message, "Clearing REPL history");
}

#[test]
fn get_hosts_without_a_control_plane_logs_one_error_and_no_output() {
    let mut repl = WashRepl::new();
    let id = match submit(&mut repl, "get hosts") {
        SubmitOutcome::Dispatched(id) => id,
        _ => panic!("get hosts did not dispatch"),
    };
    assert!(repl.has_pending(id));
    let logs_before = repl.logs.records.len();
    repl.complete_call(id, CommandOutcome::Transport("connection refused".to_string()));
    assert!(!repl.has_pending(id));
    assert_eq!(repl.logs.records.len(), logs_before + 1);
    let rec = repl.logs.records.last().unwrap();
    assert_eq!(rec.level, LogLevel::Error);
    assert_eq!(rec.message, "connection refused");
    assert!(repl.output_state.output.is_empty());
}

#[test]
fn typing_goes_on_while_a_call_is_outstanding() {
    let mut repl = WashRepl::new();
    let id = match submit(&mut repl, "get hosts") {
        SubmitOutcome::Dispatched(id) => id,
        _ => panic!("get hosts did not dispatch"),
    };
    type_line(&mut repl, "get claims");
    assert_eq!(repl.input_state.input.iter().collect::<String>(), "get claims");
    assert!(repl.has_pending(id));
}

fn call_outcome(payload: &str) -> CommandOutcome {
    CommandOutcome::CallResponse {
        msg: payload.as_bytes().to_vec(),
        invocation_id: "inv".to_string(),
        error: None,
    }
}

#[test]
fn two_calls_may_settle_in_either_order_each_with_its_own_result() {
    for settle_first in [0usize, 1usize] {
        let mut repl = WashRepl::new();
        let id_a = match submit(&mut repl, "call ACTORA OpA") {
            SubmitOutcome::Dispatched(id) => id,
            _ => panic!("first call did not dispatch"),
        };
        let id_b = match submit(&mut repl, "call ACTORB OpB") {
            SubmitOutcome::Dispatched(id) => id,
            _ => panic!("second call did not dispatch"),
        };
        assert_ne!(id_a, id_b);
        let (first, first_text, second, second_text) = if settle_first == 0 {
            (id_a, "reply-for-a", id_b, "reply-for-b")
        } else {
            (id_b, "reply-for-b", id_a, "reply-for-a")
        };
        repl.complete_call(first, call_outcome(first_text));
        repl.complete_call(second, call_outcome(second_text));
        // Both responses are on the panel, each paired with its own call,
        // in the order they settled.
        let lines = &repl.output_state.output;
        assert_eq!(lines.len(), 4);
        assert_eq!(lines[0], format!("Call response (raw): {}", first_text));
        assert_eq!(lines[2], format!("Call response (raw): {}", second_text));
    }
}
