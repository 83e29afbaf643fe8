//! The command grammar: tokenizing, every command form, the aliases,
//! and the distinct parse failures.

use wash::command::{parse_line, tokenize, ParseError, ReplCommand};
use wash::ctl::{GetCommand, StartCommand, StopCommand};

fn chars(s: &str) -> Vec<char> {
    s.chars().collect()
}

fn parse(s: &str) -> Result<ReplCommand, ParseError> {
    parse_line(&chars(s))
}

#[test]
fn tokenize_splits_on_any_blank_run() {
    let toks = tokenize(&chars("  get \t hosts\r\n"));
    assert_eq!(toks, vec!["get", "hosts"]);
    assert!(tokenize(&chars("   \t ")).is_empty());
    assert!(tokenize(&chars("")).is_empty());
    assert_eq!(tokenize(&chars("one")), vec!["one"]);
}

#[test]
fn get_commands_parse_with_default_options() {
    match parse("get hosts") {
        Ok(ReplCommand::Get(GetCommand::Hosts(c))) => {
            assert_eq!(c.opts.rpc_host, "0.0.0.0");
            assert_eq!(c.opts.rpc_port, "4222");
            assert_eq!(c.opts.ns_prefix, None);
            assert_eq!(c.opts.timeout, 1);
        },
        other => panic!("unexpected parse: {:?}", other.is_ok()),
    }
    match parse("get inventory NHOST123") {
        Ok(ReplCommand::Get(GetCommand::HostInventory(c))) => {
            assert_eq!(c.host_id, "NHOST123");
        },
        _ => panic!("inventory did not parse"),
    }
    assert!(matches!(parse("get claims"), Ok(ReplCommand::Get(GetCommand::Claims(_)))));
}

#[test]
fn call_takes_actor_operation_and_payload() {
    match parse("call MACTOR HandleRequest {\"x\":1} tail") {
        Ok(ReplCommand::Call(c)) => {
            assert_eq!(c.actor_id, "MACTOR");
            assert_eq!(c.operation, "HandleRequest");
            assert_eq!(c.data, vec!["{\"x\":1}", "tail"]);
        },
        _ => panic!("call did not parse"),
    }
    match parse("call MACTOR Op") {
        Ok(ReplCommand::Call(c)) => assert!(c.data.is_empty()),
        _ => panic!("call without payload did not parse"),
    }
    assert!(matches!(parse("call MACTOR"), Err(ParseError::Usage(w)) if w == "call"));
}

#[test]
fn link_takes_exactly_three_arguments() {
    match parse("link MACTOR VPROV wasmcloud:keyvalue") {
        Ok(ReplCommand::Link(c)) => {
            assert_eq!(c.actor_id, "MACTOR");
            assert_eq!(c.provider_id, "VPROV");
            assert_eq!(c.contract_id, "wasmcloud:keyvalue");
        },
        _ => panic!("link did not parse"),
    }
    assert!(matches!(parse("link MACTOR VPROV"), Err(ParseError::Usage(_))));
    assert!(matches!(parse("link a b c d"), Err(ParseError::Usage(_))));
}

#[test]
fn start_and_stop_take_their_references() {
    match parse("start actor NHOST theactor:0.1") {
        Ok(ReplCommand::Start(StartCommand::Actor(c))) => {
            assert_eq!(c.host_id, "NHOST");
            assert_eq!(c.actor_ref, "theactor:0.1");
        },
        _ => panic!("start actor did not parse"),
    }
    match parse("start provider NHOST theprov:0.1") {
        Ok(ReplCommand::Start(StartCommand::Provider(c))) => {
            assert_eq!(c.link_name, None);
        },
        _ => panic!("start provider did not parse"),
    }
    match parse("start provider NHOST theprov:0.1 cache") {
        Ok(ReplCommand::Start(StartCommand::Provider(c))) => {
            assert_eq!(c.link_name, Some("cache".to_string()));
        },
        _ => panic!("start provider with link name did not parse"),
    }
    match parse("stop actor NHOST theactor:0.1") {
        Ok(ReplCommand::Stop(StopCommand::Actor(c))) => {
            assert_eq!(c.actor_ref, "theactor:0.1");
        },
        _ => panic!("stop actor did not parse"),
    }
    match parse("stop provider NHOST theprov:0.1 default wasmcloud:keyvalue") {
        Ok(ReplCommand::Stop(StopCommand::Provider(c))) => {
            assert_eq!(c.link_name, "default");
            assert_eq!(c.contract_id, "wasmcloud:keyvalue");
        },
        _ => panic!("stop provider did not parse"),
    }
    assert!(matches!(parse("start actor NHOST"), Err(ParseError::Usage(_))));
    assert!(matches!(parse("stop provider NHOST p default"), Err(ParseError::Usage(_))));
}

#[test]
fn quit_and_all_its_aliases_terminate() {
    for alias in ["quit", "exit", "logout", "q", ":q!"] {
        assert!(
            matches!(parse(alias), Ok(ReplCommand::Quit)),
            "alias {} did not parse as quit",
            alias
        );
    }
    assert!(matches!(parse("clear"), Ok(ReplCommand::Clear)));
    assert!(matches!(parse("quit now"), Err(ParseError::Usage(_))));
}

#[test]
fn failures_are_distinct_values() {
    assert!(matches!(parse(""), Err(ParseError::Empty)));
    assert!(matches!(parse("   "), Err(ParseError::Empty)));
    assert!(matches!(parse("frobnicate x"), Err(ParseError::Unknown(w)) if w == "frobnicate"));
    assert!(matches!(parse("get everything"), Err(ParseError::Usage(w)) if w == "get"));
}

#[test]
fn diagnostics_name_the_failure() {
    assert_eq!(ParseError::Empty.diagnostic(), "empty command line");
    assert_eq!(
        ParseError::Unknown("frobnicate".to_string()).diagnostic(),
        "unknown command: frobnicate"
    );
    assert_eq!(
        ParseError::Usage("get".to_string()).diagnostic(),
        "wrong arguments for: get"
    );
}
